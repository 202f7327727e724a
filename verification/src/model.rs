//! What the operations on coefficients compute, over natural numbers.
//!
//! An element of the sextic extension is the sequence of its six coefficients, an element of the
//! twelfth degree extension the sequence of its twelve: the lower sextic half, then the upper one.
//!
//! The columns and lookups of products are large and therefore opaque: a proof that speaks of
//! single columns reveals them.
use vstd::prelude::*;

use crate::columns::AuxFp12MulCols;
use crate::columns::ByteLookups;
use crate::columns::FieldOp;
use crate::columns::FieldOpCols;
use crate::columns::FieldOperation;
use crate::columns::Fp6AddCols;
use crate::columns::Fp6MulByNonResidueCols;
use crate::columns::Fp6MulCols;
use crate::columns::SumOfProductsAuxillaryCols;
use crate::columns::SumOfProductsCols;
use crate::natural::Natural;

verus! {

/// The numbers of a sequence.
pub open spec fn values(s: Seq<Natural>) -> Seq<nat> {
    s.map_values(|n: Natural| n@)
}

/// The numbers of a sequence of references.
pub open spec fn ref_values(s: Seq<&Natural>) -> Seq<nat> {
    s.map_values(|n: &Natural| n@)
}

/// The numbers of a sequence of signed factors, each with its sign.
pub open spec fn signed_values(s: Seq<(i8, &Natural)>) -> Seq<(i8, nat)> {
    s.map_values(|n: (i8, &Natural)| (n.0, n.1@))
}

/// What `x` leaves on division by `m`.
pub open spec fn residue(m: nat, x: int) -> nat {
    (x % (m as int)) as nat
}

/// `a b` modulo `m`.
pub open spec fn mul_mod(m: nat, a: nat, b: nat) -> nat {
    (a * b) % m
}

/// `a + b` modulo `m`.
pub open spec fn add_mod(m: nat, a: nat, b: nat) -> nat {
    (a + b) % m
}

/// `a - b` modulo `m`.
pub open spec fn sub_mod(m: nat, a: nat, b: nat) -> nat {
    residue(m, a - b)
}

/// The factors `x`, all with the sign 1.
pub open spec fn plain(x: Seq<nat>) -> Seq<(i8, nat)> {
    Seq::new(x.len(), |i: int| (1i8, x[i]))
}

/// The factors `x`, with the signs 1 and -1 in turn.
pub open spec fn alternating(x: Seq<nat>) -> Seq<(i8, nat)> {
    Seq::new(x.len(), |i: int| (if i % 2 == 0 { 1i8 } else { -1i8 }, x[i]))
}

/// Whether the product at `i` is taken away: the signs of its factors differ. The first product is
/// never taken away.
pub open spec fn is_subtracted(a: Seq<(i8, nat)>, b: Seq<(i8, nat)>, i: int) -> bool {
    i > 0 && a[i].0 != b[i].0
}

/// The product of the factors at `i` with its sign.
pub open spec fn signed_product(a: Seq<(i8, nat)>, b: Seq<(i8, nat)>, i: int) -> int {
    if is_subtracted(a, b, i) {
        -(a[i].1 * b[i].1)
    } else {
        (a[i].1 * b[i].1) as int
    }
}

/// The sum of the signed products 0 to `k`.
pub open spec fn partial_sum(a: Seq<(i8, nat)>, b: Seq<(i8, nat)>, k: nat) -> int
    decreases k,
{
    if k == 0 {
        signed_product(a, b, 0)
    } else {
        partial_sum(a, b, (k - 1) as nat) + signed_product(a, b, k as int)
    }
}

/// The sum of the six signed products modulo `m`.
pub open spec fn sum_of_products(m: nat, a: Seq<(i8, nat)>, b: Seq<(i8, nat)>) -> nat {
    residue(
        m,
        signed_product(a, b, 0) + signed_product(a, b, 1) + signed_product(a, b, 2)
            + signed_product(a, b, 3) + signed_product(a, b, 4) + signed_product(a, b, 5),
    )
}

/// The sums and differences of the coefficients of `b` that a product of sextic elements uses.
pub open spec fn sum_of_products_aux(m: nat, b: Seq<nat>) -> Seq<nat> {
    seq![
        add_mod(m, b[2], b[3]),
        sub_mod(m, b[2], b[3]),
        add_mod(m, b[4], b[5]),
        sub_mod(m, b[4], b[5]),
    ]
}

/// Whether the differences of the coefficients of `b` are natural numbers.
pub open spec fn sum_of_products_aux_defined(b: Seq<nat>) -> bool {
    &&& b[2] >= b[3]
    &&& b[4] >= b[5]
}

/// The product of sextic elements over the integers, where `u` squared is -1 and `v` cubed is
/// `1 + u`. Coefficient `2 i + j` of an element is that of `v^i u^j`.
pub open spec fn fp6_product(a: Seq<nat>, b: Seq<nat>) -> Seq<int> {
    let (a00, a01, a10, a11, a20, a21) = (a[0], a[1], a[2], a[3], a[4], a[5]);
    let (b00, b01, b10, b11, b20, b21) = (b[0], b[1], b[2], b[3], b[4], b[5]);
    seq![
        a00 * b00 - a01 * b01 + a10 * (b20 - b21) - a11 * (b20 + b21) + a20 * (b10 - b11) - a21 * (
        b10 + b11),
        a00 * b01 + a01 * b00 + a10 * (b20 + b21) + a11 * (b20 - b21) + a20 * (b10 + b11) + a21 * (
        b10 - b11),
        a00 * b10 - a01 * b11 + a10 * b00 - a11 * b01 + a20 * (b20 - b21) - a21 * (b20 + b21),
        a00 * b11 + a01 * b10 + a10 * b01 + a11 * b00 + a20 * (b20 + b21) + a21 * (b20 - b21),
        a00 * b20 - a01 * b21 + a10 * b10 - a11 * b11 + a20 * b00 - a21 * b01,
        (a00 * b21 + a01 * b20 + a10 * b11 + a11 * b10 + a20 * b01 + a21 * b00) as int,
    ]
}

/// The product of sextic elements, its coefficients modulo `m`.
pub open spec fn fp6_mul(m: nat, a: Seq<nat>, b: Seq<nat>) -> Seq<nat> {
    Seq::new(6, |k: int| residue(m, fp6_product(a, b)[k]))
}

/// The left factors of the sum of products that is coefficient `k` of a product of sextic
/// elements.
pub open spec fn fp6_mul_left(a: Seq<nat>, k: int) -> Seq<(i8, nat)> {
    if k == 2 || k == 4 {
        alternating(a)
    } else {
        plain(a)
    }
}

/// The right factors of the sum of products that is coefficient `k` of a product of sextic
/// elements.
pub open spec fn fp6_mul_right(m: nat, b: Seq<nat>, k: int) -> Seq<(i8, nat)> {
    let aux = sum_of_products_aux(m, b);
    let (p1, m1, p2, m2) = (aux[0], aux[1], aux[2], aux[3]);
    if k == 0 {
        alternating(seq![b[0], b[1], m2, p2, m1, p1])
    } else if k == 1 {
        plain(seq![b[1], b[0], p2, m2, p1, m1])
    } else if k == 2 {
        plain(seq![b[2], b[3], b[0], b[1], m2, p2])
    } else if k == 3 {
        plain(seq![b[3], b[2], b[1], b[0], p2, m2])
    } else if k == 4 {
        plain(seq![b[4], b[5], b[2], b[3], b[0], b[1]])
    } else {
        plain(seq![b[5], b[4], b[3], b[2], b[1], b[0]])
    }
}

/// The coefficientwise sum of sextic elements.
pub open spec fn fp6_add(m: nat, a: Seq<nat>, b: Seq<nat>) -> Seq<nat> {
    Seq::new(6, |i: int| add_mod(m, a[i], b[i]))
}

/// The coefficientwise difference of sextic elements.
pub open spec fn fp6_sub(m: nat, a: Seq<nat>, b: Seq<nat>) -> Seq<nat> {
    Seq::new(6, |i: int| sub_mod(m, a[i], b[i]))
}

/// Whether every coefficient of `b` is at most that of `a`.
pub open spec fn fp6_sub_defined(a: Seq<nat>, b: Seq<nat>) -> bool {
    forall|i: int| 0 <= i < 6 ==> #[trigger] a[i] >= #[trigger] b[i]
}

/// The product of a sextic element with the non-residue `v`.
pub open spec fn fp6_mul_by_non_residue(m: nat, a: Seq<nat>) -> Seq<nat> {
    seq![sub_mod(m, a[4], a[5]), add_mod(m, a[4], a[5]), a[0], a[1], a[2], a[3]]
}

/// Whether the difference that the product with the non-residue takes is a natural number.
pub open spec fn fp6_mul_by_non_residue_defined(a: Seq<nat>) -> bool {
    a[4] >= a[5]
}

/// The lower half of an element of the twelfth degree extension.
pub open spec fn lower(a: Seq<nat>) -> Seq<nat> {
    a.subrange(0, 6)
}

/// The upper half of an element of the twelfth degree extension.
pub open spec fn upper(a: Seq<nat>) -> Seq<nat> {
    a.subrange(6, 12)
}

/// The product of an element of the sextic extension over the integers with `v`.
pub open spec fn times_v(a: Seq<int>) -> Seq<int> {
    seq![a[4] - a[5], a[4] + a[5], a[0], a[1], a[2], a[3]]
}

/// The product of elements of the twelfth degree extension over the integers, where `w` squared is
/// `v` and an element is its lower half plus `w` times its upper half.
pub open spec fn fp12_product(a: Seq<nat>, b: Seq<nat>) -> Seq<int> {
    let aa = fp6_product(lower(a), lower(b));
    let bb = fp6_product(upper(a), upper(b));
    let ab = fp6_product(lower(a), upper(b));
    let ba = fp6_product(upper(a), lower(b));
    Seq::new(
        12,
        |k: int|
            if k < 6 {
                times_v(bb)[k] + aa[k]
            } else {
                ab[k - 6] + ba[k - 6]
            },
    )
}

/// The product of elements of the twelfth degree extension, its coefficients modulo `m`.
pub open spec fn fp12_mul(m: nat, a: Seq<nat>, b: Seq<nat>) -> Seq<nat> {
    Seq::new(12, |k: int| residue(m, fp12_product(a, b)[k]))
}

/// The sextic elements on the way to a product in the twelfth degree extension.
pub struct Fp12Steps {
    pub aa: Seq<nat>,
    pub bb: Seq<nat>,
    pub o: Seq<nat>,
    pub y1: Seq<nat>,
    pub y2: Seq<nat>,
    pub y3: Seq<nat>,
    pub y: Seq<nat>,
    pub x1: Seq<nat>,
    pub x: Seq<nat>,
}

/// The sextic elements on the way to the product of `a` and `b`, with three products of halves:
/// `x` is the lower half of the result, `y` the upper one.
pub open spec fn fp12_steps(m: nat, a: Seq<nat>, b: Seq<nat>) -> Fp12Steps {
    let aa = fp6_mul(m, lower(a), lower(b));
    let bb = fp6_mul(m, upper(a), upper(b));
    let o = fp6_add(m, lower(b), upper(b));
    let y1 = fp6_add(m, upper(a), lower(a));
    let y2 = fp6_mul(m, y1, o);
    let y3 = fp6_sub(m, y2, aa);
    let y = fp6_sub(m, y3, bb);
    let x1 = fp6_mul_by_non_residue(m, bb);
    let x = fp6_add(m, x1, aa);
    Fp12Steps { aa, bb, o, y1, y2, y3, y, x1, x }
}

/// Where columns are laid out, and the modulus of their operations.
pub struct Context {
    pub shard: u32,
    pub channel: u32,
    pub modulus: nat,
}

/// Columns in which `a op b` is laid out.
pub open spec fn op_cols(c: Context, a: nat, b: nat, op: FieldOperation) -> FieldOpCols<nat> {
    FieldOpCols {
        operation: Some(
            FieldOp { shard: c.shard, channel: c.channel, a, b, modulus: c.modulus, op },
        ),
    }
}

/// Columns in which a product is laid out.
pub open spec fn mul_cols(c: Context, a: nat, b: nat) -> FieldOpCols<nat> {
    op_cols(c, a, b, FieldOperation::Mul)
}

/// Columns in which a sum is laid out.
pub open spec fn add_cols(c: Context, a: nat, b: nat) -> FieldOpCols<nat> {
    op_cols(c, a, b, FieldOperation::Add)
}

/// Columns in which a difference is laid out.
pub open spec fn sub_cols(c: Context, a: nat, b: nat) -> FieldOpCols<nat> {
    op_cols(c, a, b, FieldOperation::Sub)
}

/// The columns of the sums and differences of the coefficients of `b`.
pub open spec fn sum_of_products_aux_cols(
    c: Context,
    b: Seq<nat>,
) -> SumOfProductsAuxillaryCols<nat> {
    SumOfProductsAuxillaryCols {
        b10_p_b11: add_cols(c, b[2], b[3]),
        b10_m_b11: sub_cols(c, b[2], b[3]),
        b20_p_b21: add_cols(c, b[4], b[5]),
        b20_m_b21: sub_cols(c, b[4], b[5]),
    }
}

/// The columns of the step that takes the product at `k` into a sum of products: the sum so far,
/// and the product that is added to it or taken away.
pub open spec fn step_cols(
    c: Context,
    a: Seq<(i8, nat)>,
    b: Seq<(i8, nat)>,
    k: nat,
) -> FieldOpCols<nat> {
    let sum = residue(c.modulus, partial_sum(a, b, (k - 1) as nat));
    let cur = mul_mod(c.modulus, a[k as int].1, b[k as int].1);
    if is_subtracted(a, b, k as int) {
        sub_cols(c, sum, cur)
    } else {
        add_cols(c, sum, cur)
    }
}

/// The columns of a sum of products.
pub open spec fn sum_of_products_cols(
    c: Context,
    a: Seq<(i8, nat)>,
    b: Seq<(i8, nat)>,
) -> SumOfProductsCols<nat> {
    SumOfProductsCols {
        a1_t_b1: mul_cols(c, a[0].1, b[0].1),
        a2_t_b2: mul_cols(c, a[1].1, b[1].1),
        a3_t_b3: mul_cols(c, a[2].1, b[2].1),
        a4_t_b4: mul_cols(c, a[3].1, b[3].1),
        a5_t_b5: mul_cols(c, a[4].1, b[4].1),
        a6_t_b6: mul_cols(c, a[5].1, b[5].1),
        sum1: step_cols(c, a, b, 1),
        sum2: step_cols(c, a, b, 2),
        sum3: step_cols(c, a, b, 3),
        sum4: step_cols(c, a, b, 4),
        sum5: step_cols(c, a, b, 5),
    }
}

/// The columns of coefficient `k` of a product of sextic elements.
pub open spec fn fp6_mul_coefficient_cols(
    c: Context,
    a: Seq<nat>,
    b: Seq<nat>,
    k: int,
) -> SumOfProductsCols<nat> {
    sum_of_products_cols(c, fp6_mul_left(a, k), fp6_mul_right(c.modulus, b, k))
}

/// The columns of a product of sextic elements.
#[verifier::opaque]
pub open spec fn fp6_mul_cols(c: Context, a: Seq<nat>, b: Seq<nat>) -> Fp6MulCols<nat> {
    Fp6MulCols {
        aux: sum_of_products_aux_cols(c, b),
        c00: fp6_mul_coefficient_cols(c, a, b, 0),
        c01: fp6_mul_coefficient_cols(c, a, b, 1),
        c10: fp6_mul_coefficient_cols(c, a, b, 2),
        c11: fp6_mul_coefficient_cols(c, a, b, 3),
        c20: fp6_mul_coefficient_cols(c, a, b, 4),
        c21: fp6_mul_coefficient_cols(c, a, b, 5),
    }
}

/// The columns of a coefficientwise sum.
pub open spec fn fp6_add_cols(c: Context, a: Seq<nat>, b: Seq<nat>) -> Fp6AddCols<nat> {
    Fp6AddCols {
        a00_p_b00: add_cols(c, a[0], b[0]),
        a01_p_b01: add_cols(c, a[1], b[1]),
        a10_p_b10: add_cols(c, a[2], b[2]),
        a11_p_b11: add_cols(c, a[3], b[3]),
        a20_p_b20: add_cols(c, a[4], b[4]),
        a21_p_b21: add_cols(c, a[5], b[5]),
    }
}

/// The columns of a coefficientwise difference.
pub open spec fn fp6_sub_cols(c: Context, a: Seq<nat>, b: Seq<nat>) -> Fp6AddCols<nat> {
    Fp6AddCols {
        a00_p_b00: sub_cols(c, a[0], b[0]),
        a01_p_b01: sub_cols(c, a[1], b[1]),
        a10_p_b10: sub_cols(c, a[2], b[2]),
        a11_p_b11: sub_cols(c, a[3], b[3]),
        a20_p_b20: sub_cols(c, a[4], b[4]),
        a21_p_b21: sub_cols(c, a[5], b[5]),
    }
}

/// The columns of a product with the non-residue. A coefficient that only moves is laid out as its
/// sum with zero.
pub open spec fn fp6_mul_by_non_residue_cols(
    c: Context,
    a: Seq<nat>,
) -> Fp6MulByNonResidueCols<nat> {
    Fp6MulByNonResidueCols {
        c00: sub_cols(c, a[4], a[5]),
        c01: add_cols(c, a[4], a[5]),
        c10: add_cols(c, a[0], 0),
        c11: add_cols(c, a[1], 0),
        c20: add_cols(c, a[2], 0),
        c21: add_cols(c, a[3], 0),
    }
}

/// The columns of a product in the twelfth degree extension.
#[verifier::opaque]
pub open spec fn fp12_mul_cols(c: Context, a: Seq<nat>, b: Seq<nat>) -> AuxFp12MulCols<nat> {
    let s = fp12_steps(c.modulus, a, b);
    AuxFp12MulCols {
        aa: fp6_mul_cols(c, lower(a), lower(b)),
        bb: fp6_mul_cols(c, upper(a), upper(b)),
        o: fp6_add_cols(c, lower(b), upper(b)),
        y1: fp6_add_cols(c, upper(a), lower(a)),
        y2: fp6_mul_cols(c, s.y1, s.o),
        y3: fp6_sub_cols(c, s.y2, s.aa),
        y: fp6_sub_cols(c, s.y3, s.bb),
        x1: fp6_mul_by_non_residue_cols(c, s.bb),
        x: fp6_add_cols(c, s.x1, s.aa),
    }
}

/// The lookups that the columns of one operation ask for.
pub open spec fn op_lookups(cols: FieldOpCols<nat>) -> Seq<ByteLookups<nat>> {
    match cols.operation {
        Some(op) => seq![ByteLookups::FieldOp(op)],
        None => Seq::empty(),
    }
}

/// The lookups of sums and differences of coefficients, in the order of the columns.
pub open spec fn sum_of_products_aux_lookups(
    cols: SumOfProductsAuxillaryCols<nat>,
) -> Seq<ByteLookups<nat>> {
    op_lookups(cols.b10_p_b11) + op_lookups(cols.b10_m_b11) + op_lookups(cols.b20_p_b21)
        + op_lookups(cols.b20_m_b21)
}

/// The lookups of a sum of products, in the order of the columns: the products, then the steps
/// that take the products 2 to 6 in.
pub open spec fn sum_of_products_lookups(cols: SumOfProductsCols<nat>) -> Seq<ByteLookups<nat>> {
    op_lookups(cols.a1_t_b1) + op_lookups(cols.a2_t_b2) + op_lookups(cols.a3_t_b3) + op_lookups(
        cols.a4_t_b4,
    ) + op_lookups(cols.a5_t_b5) + op_lookups(cols.a6_t_b6) + op_lookups(cols.sum1) + op_lookups(
        cols.sum2,
    ) + op_lookups(cols.sum3) + op_lookups(cols.sum4) + op_lookups(cols.sum5)
}

/// The lookups of a product of sextic elements, in the order of the columns.
#[verifier::opaque]
pub open spec fn fp6_mul_lookups(cols: Fp6MulCols<nat>) -> Seq<ByteLookups<nat>> {
    sum_of_products_aux_lookups(cols.aux) + sum_of_products_lookups(cols.c00)
        + sum_of_products_lookups(cols.c01) + sum_of_products_lookups(cols.c10)
        + sum_of_products_lookups(cols.c11) + sum_of_products_lookups(cols.c20)
        + sum_of_products_lookups(cols.c21)
}

/// The lookups of a coefficientwise sum or difference, in the order of the columns.
pub open spec fn fp6_add_lookups(cols: Fp6AddCols<nat>) -> Seq<ByteLookups<nat>> {
    op_lookups(cols.a00_p_b00) + op_lookups(cols.a01_p_b01) + op_lookups(cols.a10_p_b10)
        + op_lookups(cols.a11_p_b11) + op_lookups(cols.a20_p_b20) + op_lookups(cols.a21_p_b21)
}

/// The lookups of a product with the non-residue, in the order of the columns.
pub open spec fn fp6_mul_by_non_residue_lookups(
    cols: Fp6MulByNonResidueCols<nat>,
) -> Seq<ByteLookups<nat>> {
    op_lookups(cols.c00) + op_lookups(cols.c01) + op_lookups(cols.c10) + op_lookups(cols.c11)
        + op_lookups(cols.c20) + op_lookups(cols.c21)
}

/// The lookups of a product in the twelfth degree extension, in the order of the columns.
#[verifier::opaque]
pub open spec fn fp12_mul_lookups(cols: AuxFp12MulCols<nat>) -> Seq<ByteLookups<nat>> {
    fp6_mul_lookups(cols.aa) + fp6_mul_lookups(cols.bb) + fp6_add_lookups(cols.o)
        + fp6_add_lookups(cols.y1) + fp6_mul_lookups(cols.y2) + fp6_add_lookups(cols.y3)
        + fp6_add_lookups(cols.y) + fp6_mul_by_non_residue_lookups(cols.x1) + fp6_add_lookups(
        cols.x,
    )
}

} // verus!
