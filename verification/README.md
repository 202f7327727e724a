# fp12_mul

Column generation for multiplication in a twelfth degree extension field over a 384 bit prime field.
Each operation on reduced operands computes its result modulo the prime and lays itself out in the
columns of a trace, together with the byte lookups that the columns ask for.

- `src/digits.rs`, `src/natural.rs`: little-endian notation and natural numbers of any size, over
  `num::BigUint`.
- `src/columns.rs`, `src/memory.rs`: the columns, and what is laid out in them.
- `src/model.rs`: what the operations compute, over `nat`.
- `src/algebra.rs`: arithmetic modulo a number, as the operations use it.
- `src/constraints.rs`, `src/fp6.rs`, `src/fp6_mul.rs`, `src/fp12.rs`: the operations, on
  coefficients, on elements of the sextic extension and of the twelfth degree extension.
- `src/chip.rs`: from the recorded products of an execution to the rows of its trace.
- `src/laws.rs`, `src/layout.rs`: what holds of the results, and of the columns and lookups, as a
  whole.
- `app/`: events as they are stored, and the trace over a prime field.

The tower of extensions is the one in which `u` squared is -1, `v` cubed is `1 + u` and `w` squared
is `v`. A difference on its own, and a product with the non-residue on its own, take away no more
than there is; products take their differences modulo the prime and have no such bound.
