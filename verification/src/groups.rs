//! The columns and the lookups of the operations, group by group.
//!
//! A group of columns takes its operands from the operands of the whole operation or from the
//! results that other groups hold.
use vstd::prelude::*;

use crate::algebra;
use crate::columns::AuxFp12MulCols;
use crate::columns::ByteLookups;
use crate::columns::FieldOp;
use crate::columns::FieldOpCols;
use crate::columns::FieldOperation;
use crate::columns::Fp6AddCols;
use crate::columns::Fp6MulByNonResidueCols;
use crate::columns::Fp6MulCols;
use crate::columns::SumOfProductsAuxillaryCols;
use crate::columns::SumOfProductsCols;
use crate::layout;
use crate::model;
use crate::model::Context;

verus! {

/// An operation is laid out with its kind, its operands in their order, and the shard, the channel
/// and the modulus of the context.
pub proof fn law_operation_columns(c: Context, a: nat, b: nat, op: FieldOperation)
    ensures
        model::op_cols(c, a, b, op).operation == Some(
            FieldOp { shard: c.shard, channel: c.channel, a, b, modulus: c.modulus, op },
        ),
        model::mul_cols(c, a, b) == model::op_cols(c, a, b, FieldOperation::Mul),
        model::add_cols(c, a, b) == model::op_cols(c, a, b, FieldOperation::Add),
        model::sub_cols(c, a, b) == model::op_cols(c, a, b, FieldOperation::Sub),
{
}

/// The groups of the sums and differences hold the sum and the difference of the second and of the
/// third coefficient of `b` in the quadratic extension.
pub proof fn law_sum_of_products_aux_columns(c: Context, b: Seq<nat>)
    requires
        c.modulus > 0,
    ensures
        ({
            let cols = model::sum_of_products_aux_cols(c, b);
            let m = c.modulus;
            &&& cols.b10_p_b11 == model::add_cols(c, b[2], b[3])
            &&& cols.b10_m_b11 == model::sub_cols(c, b[2], b[3])
            &&& cols.b20_p_b21 == model::add_cols(c, b[4], b[5])
            &&& cols.b20_m_b21 == model::sub_cols(c, b[4], b[5])
            &&& cols.b10_p_b11.holds((b[2] + b[3]) % m)
            &&& cols.b10_m_b11.holds(((b[2] - b[3]) % (m as int)) as nat)
            &&& cols.b20_p_b21.holds((b[4] + b[5]) % m)
            &&& cols.b20_m_b21.holds(((b[4] - b[5]) % (m as int)) as nat)
        }),
{
}

/// The groups of the products of a sum of products hold the products of the pairs of factors in
/// their order, whatever the signs.
pub proof fn law_sum_of_products_products(c: Context, a: Seq<(i8, nat)>, b: Seq<(i8, nat)>)
    requires
        c.modulus > 0,
    ensures
        ({
            let cols = model::sum_of_products_cols(c, a, b);
            &&& cols.a1_t_b1 == model::mul_cols(c, a[0].1, b[0].1)
            &&& cols.a2_t_b2 == model::mul_cols(c, a[1].1, b[1].1)
            &&& cols.a3_t_b3 == model::mul_cols(c, a[2].1, b[2].1)
            &&& cols.a4_t_b4 == model::mul_cols(c, a[3].1, b[3].1)
            &&& cols.a5_t_b5 == model::mul_cols(c, a[4].1, b[4].1)
            &&& cols.a6_t_b6 == model::mul_cols(c, a[5].1, b[5].1)
            &&& cols.a1_t_b1.holds((a[0].1 * b[0].1) % c.modulus)
            &&& cols.a2_t_b2.holds((a[1].1 * b[1].1) % c.modulus)
            &&& cols.a3_t_b3.holds((a[2].1 * b[2].1) % c.modulus)
            &&& cols.a4_t_b4.holds((a[3].1 * b[3].1) % c.modulus)
            &&& cols.a5_t_b5.holds((a[4].1 * b[4].1) % c.modulus)
            &&& cols.a6_t_b6.holds((a[5].1 * b[5].1) % c.modulus)
        }),
{
}

/// Each step of a sum of products adds to what the step before it holds, or takes away from it,
/// what the group of the next product holds; it takes away where the signs of the factors differ.
/// The first step starts from the first product, and the last one holds the sum.
pub proof fn law_sum_of_products_steps(c: Context, a: Seq<(i8, nat)>, b: Seq<(i8, nat)>)
    requires
        c.modulus > 0,
    ensures
        ({
            let cols = model::sum_of_products_cols(c, a, b);
            &&& cols.sum1.operation is Some
            &&& cols.a1_t_b1.holds(cols.sum1.operation->0.a)
            &&& cols.a2_t_b2.holds(cols.sum1.operation->0.b)
            &&& cols.sum1.operation->0.op == if a[1].0 != b[1].0 {
                FieldOperation::Sub
            } else {
                FieldOperation::Add
            }
            &&& cols.sum1.operation->0.shard == c.shard
            &&& cols.sum1.operation->0.channel == c.channel
            &&& cols.sum1.operation->0.modulus == c.modulus
            &&& cols.sum2.operation is Some
            &&& cols.sum1.holds(cols.sum2.operation->0.a)
            &&& cols.a3_t_b3.holds(cols.sum2.operation->0.b)
            &&& cols.sum2.operation->0.op == if a[2].0 != b[2].0 {
                FieldOperation::Sub
            } else {
                FieldOperation::Add
            }
            &&& cols.sum2.operation->0.shard == c.shard
            &&& cols.sum2.operation->0.channel == c.channel
            &&& cols.sum2.operation->0.modulus == c.modulus
            &&& cols.sum3.operation is Some
            &&& cols.sum2.holds(cols.sum3.operation->0.a)
            &&& cols.a4_t_b4.holds(cols.sum3.operation->0.b)
            &&& cols.sum3.operation->0.op == if a[3].0 != b[3].0 {
                FieldOperation::Sub
            } else {
                FieldOperation::Add
            }
            &&& cols.sum3.operation->0.shard == c.shard
            &&& cols.sum3.operation->0.channel == c.channel
            &&& cols.sum3.operation->0.modulus == c.modulus
            &&& cols.sum4.operation is Some
            &&& cols.sum3.holds(cols.sum4.operation->0.a)
            &&& cols.a5_t_b5.holds(cols.sum4.operation->0.b)
            &&& cols.sum4.operation->0.op == if a[4].0 != b[4].0 {
                FieldOperation::Sub
            } else {
                FieldOperation::Add
            }
            &&& cols.sum4.operation->0.shard == c.shard
            &&& cols.sum4.operation->0.channel == c.channel
            &&& cols.sum4.operation->0.modulus == c.modulus
            &&& cols.sum5.operation is Some
            &&& cols.sum4.holds(cols.sum5.operation->0.a)
            &&& cols.a6_t_b6.holds(cols.sum5.operation->0.b)
            &&& cols.sum5.operation->0.op == if a[5].0 != b[5].0 {
                FieldOperation::Sub
            } else {
                FieldOperation::Add
            }
            &&& cols.sum5.operation->0.shard == c.shard
            &&& cols.sum5.operation->0.channel == c.channel
            &&& cols.sum5.operation->0.modulus == c.modulus
            &&& cols.sum5.holds(model::sum_of_products(c.modulus, a, b))
        }),
{
    layout::law_sum_of_products_held(c, a, b);
}

/// The groups of a product of sextic elements: the sums and differences of `b`, and for each
/// coefficient the sum of six products of signed factors.
pub proof fn law_fp6_mul_columns(c: Context, a: Seq<nat>, b: Seq<nat>)
    requires
        c.modulus > 0,
        a.len() == 6,
        b.len() == 6,
    ensures
        ({
            let cols = model::fp6_mul_cols(c, a, b);
            let p1 = (b[2] + b[3]) % c.modulus;
            let m1 = ((b[2] - b[3]) % (c.modulus as int)) as nat;
            let p2 = (b[4] + b[5]) % c.modulus;
            let m2 = ((b[4] - b[5]) % (c.modulus as int)) as nat;
            let plain = seq![
                (1i8, a[0]),
                (1i8, a[1]),
                (1i8, a[2]),
                (1i8, a[3]),
                (1i8, a[4]),
                (1i8, a[5]),
            ];
            let turns = seq![
                (1i8, a[0]),
                (-1i8, a[1]),
                (1i8, a[2]),
                (-1i8, a[3]),
                (1i8, a[4]),
                (-1i8, a[5]),
            ];
            &&& cols.aux == model::sum_of_products_aux_cols(c, b)
            &&& cols.aux.b10_p_b11.holds(p1)
            &&& cols.aux.b10_m_b11.holds(m1)
            &&& cols.aux.b20_p_b21.holds(p2)
            &&& cols.aux.b20_m_b21.holds(m2)
            &&& cols.c00 == model::sum_of_products_cols(
                c,
                plain,
                seq![
                    (1i8, b[0]),
                    (-1i8, b[1]),
                    (1i8, m2),
                    (-1i8, p2),
                    (1i8, m1),
                    (-1i8, p1),
                ],
            )
            &&& cols.c01 == model::sum_of_products_cols(
                c,
                plain,
                seq![
                    (1i8, b[1]),
                    (1i8, b[0]),
                    (1i8, p2),
                    (1i8, m2),
                    (1i8, p1),
                    (1i8, m1),
                ],
            )
            &&& cols.c10 == model::sum_of_products_cols(
                c,
                turns,
                seq![
                    (1i8, b[2]),
                    (1i8, b[3]),
                    (1i8, b[0]),
                    (1i8, b[1]),
                    (1i8, m2),
                    (1i8, p2),
                ],
            )
            &&& cols.c11 == model::sum_of_products_cols(
                c,
                plain,
                seq![
                    (1i8, b[3]),
                    (1i8, b[2]),
                    (1i8, b[1]),
                    (1i8, b[0]),
                    (1i8, p2),
                    (1i8, m2),
                ],
            )
            &&& cols.c20 == model::sum_of_products_cols(
                c,
                turns,
                seq![
                    (1i8, b[4]),
                    (1i8, b[5]),
                    (1i8, b[2]),
                    (1i8, b[3]),
                    (1i8, b[0]),
                    (1i8, b[1]),
                ],
            )
            &&& cols.c21 == model::sum_of_products_cols(
                c,
                plain,
                seq![
                    (1i8, b[5]),
                    (1i8, b[4]),
                    (1i8, b[3]),
                    (1i8, b[2]),
                    (1i8, b[1]),
                    (1i8, b[0]),
                ],
            )
        }),
{
    reveal(model::fp6_mul_cols);
    let m = c.modulus;
    let aux = model::sum_of_products_aux(m, b);
    law_sum_of_products_aux_columns(c, b);
    assert(model::fp6_mul_left(a, 0) =~= seq![
        (1i8, a[0]),
        (1i8, a[1]),
        (1i8, a[2]),
        (1i8, a[3]),
        (1i8, a[4]),
        (1i8, a[5]),
    ]);
    assert(model::fp6_mul_right(m, b, 0) =~= seq![
        (1i8, b[0]),
        (-1i8, b[1]),
        (1i8, aux[3]),
        (-1i8, aux[2]),
        (1i8, aux[1]),
        (-1i8, aux[0]),
    ]);
    assert(model::fp6_mul_left(a, 1) =~= seq![
        (1i8, a[0]),
        (1i8, a[1]),
        (1i8, a[2]),
        (1i8, a[3]),
        (1i8, a[4]),
        (1i8, a[5]),
    ]);
    assert(model::fp6_mul_right(m, b, 1) =~= seq![
        (1i8, b[1]),
        (1i8, b[0]),
        (1i8, aux[2]),
        (1i8, aux[3]),
        (1i8, aux[0]),
        (1i8, aux[1]),
    ]);
    assert(model::fp6_mul_left(a, 2) =~= seq![
        (1i8, a[0]),
        (-1i8, a[1]),
        (1i8, a[2]),
        (-1i8, a[3]),
        (1i8, a[4]),
        (-1i8, a[5]),
    ]);
    assert(model::fp6_mul_right(m, b, 2) =~= seq![
        (1i8, b[2]),
        (1i8, b[3]),
        (1i8, b[0]),
        (1i8, b[1]),
        (1i8, aux[3]),
        (1i8, aux[2]),
    ]);
    assert(model::fp6_mul_left(a, 3) =~= seq![
        (1i8, a[0]),
        (1i8, a[1]),
        (1i8, a[2]),
        (1i8, a[3]),
        (1i8, a[4]),
        (1i8, a[5]),
    ]);
    assert(model::fp6_mul_right(m, b, 3) =~= seq![
        (1i8, b[3]),
        (1i8, b[2]),
        (1i8, b[1]),
        (1i8, b[0]),
        (1i8, aux[2]),
        (1i8, aux[3]),
    ]);
    assert(model::fp6_mul_left(a, 4) =~= seq![
        (1i8, a[0]),
        (-1i8, a[1]),
        (1i8, a[2]),
        (-1i8, a[3]),
        (1i8, a[4]),
        (-1i8, a[5]),
    ]);
    assert(model::fp6_mul_right(m, b, 4) =~= seq![
        (1i8, b[4]),
        (1i8, b[5]),
        (1i8, b[2]),
        (1i8, b[3]),
        (1i8, b[0]),
        (1i8, b[1]),
    ]);
    assert(model::fp6_mul_left(a, 5) =~= seq![
        (1i8, a[0]),
        (1i8, a[1]),
        (1i8, a[2]),
        (1i8, a[3]),
        (1i8, a[4]),
        (1i8, a[5]),
    ]);
    assert(model::fp6_mul_right(m, b, 5) =~= seq![
        (1i8, b[5]),
        (1i8, b[4]),
        (1i8, b[3]),
        (1i8, b[2]),
        (1i8, b[1]),
        (1i8, b[0]),
    ]);
}

/// Each factor of a product in the columns of a product of sextic elements is a coefficient or the
/// value that one of the groups of sums and differences holds.
pub proof fn law_fp6_mul_operands(c: Context, a: Seq<nat>, b: Seq<nat>)
    requires
        c.modulus > 0,
        a.len() == 6,
        b.len() == 6,
    ensures
        ({
            let cols = model::fp6_mul_cols(c, a, b);
            &&& cols.c00.a1_t_b1.operation is Some
            &&& cols.c00.a1_t_b1.operation->0.a == a[0]
            &&& cols.c00.a1_t_b1.operation->0.b == b[0]
            &&& cols.c00.a2_t_b2.operation is Some
            &&& cols.c00.a2_t_b2.operation->0.a == a[1]
            &&& cols.c00.a2_t_b2.operation->0.b == b[1]
            &&& cols.c00.a3_t_b3.operation is Some
            &&& cols.c00.a3_t_b3.operation->0.a == a[2]
            &&& cols.aux.b20_m_b21.holds(cols.c00.a3_t_b3.operation->0.b)
            &&& cols.c00.a4_t_b4.operation is Some
            &&& cols.c00.a4_t_b4.operation->0.a == a[3]
            &&& cols.aux.b20_p_b21.holds(cols.c00.a4_t_b4.operation->0.b)
            &&& cols.c00.a5_t_b5.operation is Some
            &&& cols.c00.a5_t_b5.operation->0.a == a[4]
            &&& cols.aux.b10_m_b11.holds(cols.c00.a5_t_b5.operation->0.b)
            &&& cols.c00.a6_t_b6.operation is Some
            &&& cols.c00.a6_t_b6.operation->0.a == a[5]
            &&& cols.aux.b10_p_b11.holds(cols.c00.a6_t_b6.operation->0.b)
            &&& cols.c01.a1_t_b1.operation is Some
            &&& cols.c01.a1_t_b1.operation->0.a == a[0]
            &&& cols.c01.a1_t_b1.operation->0.b == b[1]
            &&& cols.c01.a2_t_b2.operation is Some
            &&& cols.c01.a2_t_b2.operation->0.a == a[1]
            &&& cols.c01.a2_t_b2.operation->0.b == b[0]
            &&& cols.c01.a3_t_b3.operation is Some
            &&& cols.c01.a3_t_b3.operation->0.a == a[2]
            &&& cols.aux.b20_p_b21.holds(cols.c01.a3_t_b3.operation->0.b)
            &&& cols.c01.a4_t_b4.operation is Some
            &&& cols.c01.a4_t_b4.operation->0.a == a[3]
            &&& cols.aux.b20_m_b21.holds(cols.c01.a4_t_b4.operation->0.b)
            &&& cols.c01.a5_t_b5.operation is Some
            &&& cols.c01.a5_t_b5.operation->0.a == a[4]
            &&& cols.aux.b10_p_b11.holds(cols.c01.a5_t_b5.operation->0.b)
            &&& cols.c01.a6_t_b6.operation is Some
            &&& cols.c01.a6_t_b6.operation->0.a == a[5]
            &&& cols.aux.b10_m_b11.holds(cols.c01.a6_t_b6.operation->0.b)
            &&& cols.c10.a1_t_b1.operation is Some
            &&& cols.c10.a1_t_b1.operation->0.a == a[0]
            &&& cols.c10.a1_t_b1.operation->0.b == b[2]
            &&& cols.c10.a2_t_b2.operation is Some
            &&& cols.c10.a2_t_b2.operation->0.a == a[1]
            &&& cols.c10.a2_t_b2.operation->0.b == b[3]
            &&& cols.c10.a3_t_b3.operation is Some
            &&& cols.c10.a3_t_b3.operation->0.a == a[2]
            &&& cols.c10.a3_t_b3.operation->0.b == b[0]
            &&& cols.c10.a4_t_b4.operation is Some
            &&& cols.c10.a4_t_b4.operation->0.a == a[3]
            &&& cols.c10.a4_t_b4.operation->0.b == b[1]
            &&& cols.c10.a5_t_b5.operation is Some
            &&& cols.c10.a5_t_b5.operation->0.a == a[4]
            &&& cols.aux.b20_m_b21.holds(cols.c10.a5_t_b5.operation->0.b)
            &&& cols.c10.a6_t_b6.operation is Some
            &&& cols.c10.a6_t_b6.operation->0.a == a[5]
            &&& cols.aux.b20_p_b21.holds(cols.c10.a6_t_b6.operation->0.b)
            &&& cols.c11.a1_t_b1.operation is Some
            &&& cols.c11.a1_t_b1.operation->0.a == a[0]
            &&& cols.c11.a1_t_b1.operation->0.b == b[3]
            &&& cols.c11.a2_t_b2.operation is Some
            &&& cols.c11.a2_t_b2.operation->0.a == a[1]
            &&& cols.c11.a2_t_b2.operation->0.b == b[2]
            &&& cols.c11.a3_t_b3.operation is Some
            &&& cols.c11.a3_t_b3.operation->0.a == a[2]
            &&& cols.c11.a3_t_b3.operation->0.b == b[1]
            &&& cols.c11.a4_t_b4.operation is Some
            &&& cols.c11.a4_t_b4.operation->0.a == a[3]
            &&& cols.c11.a4_t_b4.operation->0.b == b[0]
            &&& cols.c11.a5_t_b5.operation is Some
            &&& cols.c11.a5_t_b5.operation->0.a == a[4]
            &&& cols.aux.b20_p_b21.holds(cols.c11.a5_t_b5.operation->0.b)
            &&& cols.c11.a6_t_b6.operation is Some
            &&& cols.c11.a6_t_b6.operation->0.a == a[5]
            &&& cols.aux.b20_m_b21.holds(cols.c11.a6_t_b6.operation->0.b)
            &&& cols.c20.a1_t_b1.operation is Some
            &&& cols.c20.a1_t_b1.operation->0.a == a[0]
            &&& cols.c20.a1_t_b1.operation->0.b == b[4]
            &&& cols.c20.a2_t_b2.operation is Some
            &&& cols.c20.a2_t_b2.operation->0.a == a[1]
            &&& cols.c20.a2_t_b2.operation->0.b == b[5]
            &&& cols.c20.a3_t_b3.operation is Some
            &&& cols.c20.a3_t_b3.operation->0.a == a[2]
            &&& cols.c20.a3_t_b3.operation->0.b == b[2]
            &&& cols.c20.a4_t_b4.operation is Some
            &&& cols.c20.a4_t_b4.operation->0.a == a[3]
            &&& cols.c20.a4_t_b4.operation->0.b == b[3]
            &&& cols.c20.a5_t_b5.operation is Some
            &&& cols.c20.a5_t_b5.operation->0.a == a[4]
            &&& cols.c20.a5_t_b5.operation->0.b == b[0]
            &&& cols.c20.a6_t_b6.operation is Some
            &&& cols.c20.a6_t_b6.operation->0.a == a[5]
            &&& cols.c20.a6_t_b6.operation->0.b == b[1]
            &&& cols.c21.a1_t_b1.operation is Some
            &&& cols.c21.a1_t_b1.operation->0.a == a[0]
            &&& cols.c21.a1_t_b1.operation->0.b == b[5]
            &&& cols.c21.a2_t_b2.operation is Some
            &&& cols.c21.a2_t_b2.operation->0.a == a[1]
            &&& cols.c21.a2_t_b2.operation->0.b == b[4]
            &&& cols.c21.a3_t_b3.operation is Some
            &&& cols.c21.a3_t_b3.operation->0.a == a[2]
            &&& cols.c21.a3_t_b3.operation->0.b == b[3]
            &&& cols.c21.a4_t_b4.operation is Some
            &&& cols.c21.a4_t_b4.operation->0.a == a[3]
            &&& cols.c21.a4_t_b4.operation->0.b == b[2]
            &&& cols.c21.a5_t_b5.operation is Some
            &&& cols.c21.a5_t_b5.operation->0.a == a[4]
            &&& cols.c21.a5_t_b5.operation->0.b == b[1]
            &&& cols.c21.a6_t_b6.operation is Some
            &&& cols.c21.a6_t_b6.operation->0.a == a[5]
            &&& cols.c21.a6_t_b6.operation->0.b == b[0]
        }),
{
    law_fp6_mul_columns(c, a, b);
}

/// The groups of a coefficientwise sum and of a coefficientwise difference.
pub proof fn law_fp6_add_columns(c: Context, a: Seq<nat>, b: Seq<nat>)
    requires
        c.modulus > 0,
    ensures
        model::fp6_add_cols(c, a, b).a00_p_b00 == model::add_cols(c, a[0], b[0]),
        model::fp6_add_cols(c, a, b).a01_p_b01 == model::add_cols(c, a[1], b[1]),
        model::fp6_add_cols(c, a, b).a10_p_b10 == model::add_cols(c, a[2], b[2]),
        model::fp6_add_cols(c, a, b).a11_p_b11 == model::add_cols(c, a[3], b[3]),
        model::fp6_add_cols(c, a, b).a20_p_b20 == model::add_cols(c, a[4], b[4]),
        model::fp6_add_cols(c, a, b).a21_p_b21 == model::add_cols(c, a[5], b[5]),
        model::fp6_sub_cols(c, a, b).a00_p_b00 == model::sub_cols(c, a[0], b[0]),
        model::fp6_sub_cols(c, a, b).a01_p_b01 == model::sub_cols(c, a[1], b[1]),
        model::fp6_sub_cols(c, a, b).a10_p_b10 == model::sub_cols(c, a[2], b[2]),
        model::fp6_sub_cols(c, a, b).a11_p_b11 == model::sub_cols(c, a[3], b[3]),
        model::fp6_sub_cols(c, a, b).a20_p_b20 == model::sub_cols(c, a[4], b[4]),
        model::fp6_sub_cols(c, a, b).a21_p_b21 == model::sub_cols(c, a[5], b[5]),
        model::fp6_add_cols(c, a, b).a00_p_b00.holds((a[0] + b[0]) % c.modulus),
        model::fp6_add_cols(c, a, b).a01_p_b01.holds((a[1] + b[1]) % c.modulus),
        model::fp6_add_cols(c, a, b).a10_p_b10.holds((a[2] + b[2]) % c.modulus),
        model::fp6_add_cols(c, a, b).a11_p_b11.holds((a[3] + b[3]) % c.modulus),
        model::fp6_add_cols(c, a, b).a20_p_b20.holds((a[4] + b[4]) % c.modulus),
        model::fp6_add_cols(c, a, b).a21_p_b21.holds((a[5] + b[5]) % c.modulus),
        model::fp6_sub_cols(c, a, b).a00_p_b00.holds(
            ((a[0] - b[0]) % (c.modulus as int)) as nat,
        ),
        model::fp6_sub_cols(c, a, b).a01_p_b01.holds(
            ((a[1] - b[1]) % (c.modulus as int)) as nat,
        ),
        model::fp6_sub_cols(c, a, b).a10_p_b10.holds(
            ((a[2] - b[2]) % (c.modulus as int)) as nat,
        ),
        model::fp6_sub_cols(c, a, b).a11_p_b11.holds(
            ((a[3] - b[3]) % (c.modulus as int)) as nat,
        ),
        model::fp6_sub_cols(c, a, b).a20_p_b20.holds(
            ((a[4] - b[4]) % (c.modulus as int)) as nat,
        ),
        model::fp6_sub_cols(c, a, b).a21_p_b21.holds(
            ((a[5] - b[5]) % (c.modulus as int)) as nat,
        ),
{
}

/// The groups of a product with the non-residue: the difference and the sum of the last two
/// coefficients, and the first four coefficients, which the other groups hold reduced.
pub proof fn law_fp6_mul_by_non_residue_columns(c: Context, a: Seq<nat>)
    requires
        c.modulus > 0,
    ensures
        ({
            let cols = model::fp6_mul_by_non_residue_cols(c, a);
            &&& cols.c00 == model::sub_cols(c, a[4], a[5])
            &&& cols.c01 == model::add_cols(c, a[4], a[5])
            &&& cols.c10 == model::add_cols(c, a[0], 0)
            &&& cols.c11 == model::add_cols(c, a[1], 0)
            &&& cols.c20 == model::add_cols(c, a[2], 0)
            &&& cols.c21 == model::add_cols(c, a[3], 0)
            &&& cols.c00.holds(((a[4] - a[5]) % (c.modulus as int)) as nat)
            &&& cols.c01.holds((a[4] + a[5]) % c.modulus)
            &&& cols.c10.holds(a[0] % c.modulus)
            &&& cols.c11.holds(a[1] % c.modulus)
            &&& cols.c20.holds(a[2] % c.modulus)
            &&& cols.c21.holds(a[3] % c.modulus)
        }),
{
}

/// The groups of a product in the twelfth degree extension, from the halves of its factors.
pub proof fn law_fp12_mul_columns(c: Context, a: Seq<nat>, b: Seq<nat>)
    ensures
        ({
            let cols = model::fp12_mul_cols(c, a, b);
            let m = c.modulus;
            let (a0, a1) = (model::lower(a), model::upper(a));
            let (b0, b1) = (model::lower(b), model::upper(b));
            let (aa, bb) = (model::fp6_mul(m, a0, b0), model::fp6_mul(m, a1, b1));
            let (y1, o) = (model::fp6_add(m, a1, a0), model::fp6_add(m, b0, b1));
            let y2 = model::fp6_mul(m, y1, o);
            &&& cols.aa == model::fp6_mul_cols(c, a0, b0)
            &&& cols.bb == model::fp6_mul_cols(c, a1, b1)
            &&& cols.o == model::fp6_add_cols(c, b0, b1)
            &&& cols.y1 == model::fp6_add_cols(c, a1, a0)
            &&& cols.y2 == model::fp6_mul_cols(c, y1, o)
            &&& cols.y3 == model::fp6_sub_cols(c, y2, aa)
            &&& cols.y == model::fp6_sub_cols(c, model::fp6_sub(m, y2, aa), bb)
            &&& cols.x1 == model::fp6_mul_by_non_residue_cols(c, bb)
            &&& cols.x == model::fp6_add_cols(c, model::fp6_mul_by_non_residue(m, bb), aa)
        }),
{
    reveal(model::fp12_mul_cols);
}

/// How the groups of a product in the twelfth degree extension hang together: `y2` multiplies what
/// `y1` and `o` hold, `y3` takes what `aa` holds away from what `y2` holds, `y` takes what `bb`
/// holds away from what `y3` holds, `x1` moves what `bb` holds, and `x` adds what `aa` holds to
/// what `x1` holds.
pub proof fn law_fp12_mul_operands(c: Context, a: Seq<nat>, b: Seq<nat>)
    requires
        c.modulus > 0,
        a.len() == 12,
        b.len() == 12,
    ensures
        ({
            let cols = model::fp12_mul_cols(c, a, b);
            &&& cols.y1.a00_p_b00.holds(cols.y2.c21.a1_t_b1.operation->0.a)
            &&& cols.o.a21_p_b21.holds(cols.y2.c21.a1_t_b1.operation->0.b)
            &&& cols.y1.a01_p_b01.holds(cols.y2.c21.a2_t_b2.operation->0.a)
            &&& cols.o.a20_p_b20.holds(cols.y2.c21.a2_t_b2.operation->0.b)
            &&& cols.y1.a10_p_b10.holds(cols.y2.c21.a3_t_b3.operation->0.a)
            &&& cols.o.a11_p_b11.holds(cols.y2.c21.a3_t_b3.operation->0.b)
            &&& cols.y1.a11_p_b11.holds(cols.y2.c21.a4_t_b4.operation->0.a)
            &&& cols.o.a10_p_b10.holds(cols.y2.c21.a4_t_b4.operation->0.b)
            &&& cols.y1.a20_p_b20.holds(cols.y2.c21.a5_t_b5.operation->0.a)
            &&& cols.o.a01_p_b01.holds(cols.y2.c21.a5_t_b5.operation->0.b)
            &&& cols.y1.a21_p_b21.holds(cols.y2.c21.a6_t_b6.operation->0.a)
            &&& cols.o.a00_p_b00.holds(cols.y2.c21.a6_t_b6.operation->0.b)
            &&& cols.y2.c00.sum5.holds(cols.y3.a00_p_b00.operation->0.a)
            &&& cols.aa.c00.sum5.holds(cols.y3.a00_p_b00.operation->0.b)
            &&& cols.y3.a00_p_b00.holds(cols.y.a00_p_b00.operation->0.a)
            &&& cols.bb.c00.sum5.holds(cols.y.a00_p_b00.operation->0.b)
            &&& cols.x1.c00.holds(cols.x.a00_p_b00.operation->0.a)
            &&& cols.aa.c00.sum5.holds(cols.x.a00_p_b00.operation->0.b)
            &&& cols.y2.c01.sum5.holds(cols.y3.a01_p_b01.operation->0.a)
            &&& cols.aa.c01.sum5.holds(cols.y3.a01_p_b01.operation->0.b)
            &&& cols.y3.a01_p_b01.holds(cols.y.a01_p_b01.operation->0.a)
            &&& cols.bb.c01.sum5.holds(cols.y.a01_p_b01.operation->0.b)
            &&& cols.x1.c01.holds(cols.x.a01_p_b01.operation->0.a)
            &&& cols.aa.c01.sum5.holds(cols.x.a01_p_b01.operation->0.b)
            &&& cols.y2.c10.sum5.holds(cols.y3.a10_p_b10.operation->0.a)
            &&& cols.aa.c10.sum5.holds(cols.y3.a10_p_b10.operation->0.b)
            &&& cols.y3.a10_p_b10.holds(cols.y.a10_p_b10.operation->0.a)
            &&& cols.bb.c10.sum5.holds(cols.y.a10_p_b10.operation->0.b)
            &&& cols.x1.c10.holds(cols.x.a10_p_b10.operation->0.a)
            &&& cols.aa.c10.sum5.holds(cols.x.a10_p_b10.operation->0.b)
            &&& cols.y2.c11.sum5.holds(cols.y3.a11_p_b11.operation->0.a)
            &&& cols.aa.c11.sum5.holds(cols.y3.a11_p_b11.operation->0.b)
            &&& cols.y3.a11_p_b11.holds(cols.y.a11_p_b11.operation->0.a)
            &&& cols.bb.c11.sum5.holds(cols.y.a11_p_b11.operation->0.b)
            &&& cols.x1.c11.holds(cols.x.a11_p_b11.operation->0.a)
            &&& cols.aa.c11.sum5.holds(cols.x.a11_p_b11.operation->0.b)
            &&& cols.y2.c20.sum5.holds(cols.y3.a20_p_b20.operation->0.a)
            &&& cols.aa.c20.sum5.holds(cols.y3.a20_p_b20.operation->0.b)
            &&& cols.y3.a20_p_b20.holds(cols.y.a20_p_b20.operation->0.a)
            &&& cols.bb.c20.sum5.holds(cols.y.a20_p_b20.operation->0.b)
            &&& cols.x1.c20.holds(cols.x.a20_p_b20.operation->0.a)
            &&& cols.aa.c20.sum5.holds(cols.x.a20_p_b20.operation->0.b)
            &&& cols.y2.c21.sum5.holds(cols.y3.a21_p_b21.operation->0.a)
            &&& cols.aa.c21.sum5.holds(cols.y3.a21_p_b21.operation->0.b)
            &&& cols.y3.a21_p_b21.holds(cols.y.a21_p_b21.operation->0.a)
            &&& cols.bb.c21.sum5.holds(cols.y.a21_p_b21.operation->0.b)
            &&& cols.x1.c21.holds(cols.x.a21_p_b21.operation->0.a)
            &&& cols.aa.c21.sum5.holds(cols.x.a21_p_b21.operation->0.b)
            &&& cols.bb.c20.sum5.holds(cols.x1.c00.operation->0.a)
            &&& cols.bb.c21.sum5.holds(cols.x1.c00.operation->0.b)
            &&& cols.bb.c20.sum5.holds(cols.x1.c01.operation->0.a)
            &&& cols.bb.c21.sum5.holds(cols.x1.c01.operation->0.b)
            &&& cols.bb.c00.sum5.holds(cols.x1.c10.operation->0.a)
            &&& cols.bb.c01.sum5.holds(cols.x1.c11.operation->0.a)
            &&& cols.bb.c10.sum5.holds(cols.x1.c20.operation->0.a)
            &&& cols.bb.c11.sum5.holds(cols.x1.c21.operation->0.a)
        }),
{
    let m = c.modulus;
    let s = model::fp12_steps(m, a, b);
    law_fp12_mul_columns(c, a, b);
    law_fp6_mul_operands(c, s.y1, s.o);
    layout::law_fp12_mul_held(c, a, b);
    algebra::lemma_fp12_steps(m, a, b);
}

/// Columns ask for the lookup of the operation laid out in them.
pub proof fn law_op_lookups(cols: FieldOpCols<nat>)
    ensures
        cols.operation is Some ==> model::op_lookups(cols) == seq![
            ByteLookups::FieldOp(cols.operation->0),
        ],
        cols.operation is None ==> model::op_lookups(cols).len() == 0,
{
}

/// The sums and differences ask for one lookup for each of their groups, in their order.
pub proof fn law_sum_of_products_aux_lookups_in_order(cols: SumOfProductsAuxillaryCols<nat>)
    requires
        cols.b10_p_b11.operation is Some,
        cols.b10_m_b11.operation is Some,
        cols.b20_p_b21.operation is Some,
        cols.b20_m_b21.operation is Some,
    ensures
        model::sum_of_products_aux_lookups(cols) == seq![
            ByteLookups::FieldOp(cols.b10_p_b11.operation->0),
            ByteLookups::FieldOp(cols.b10_m_b11.operation->0),
            ByteLookups::FieldOp(cols.b20_p_b21.operation->0),
            ByteLookups::FieldOp(cols.b20_m_b21.operation->0),
        ],
{
    assert(model::sum_of_products_aux_lookups(cols) =~= seq![
        ByteLookups::FieldOp(cols.b10_p_b11.operation->0),
        ByteLookups::FieldOp(cols.b10_m_b11.operation->0),
        ByteLookups::FieldOp(cols.b20_p_b21.operation->0),
        ByteLookups::FieldOp(cols.b20_m_b21.operation->0),
    ]);
}

/// A sum of products asks for one lookup for each of its groups, in their order.
pub proof fn law_sum_of_products_lookups_in_order(cols: SumOfProductsCols<nat>)
    requires
        cols.a1_t_b1.operation is Some,
        cols.a2_t_b2.operation is Some,
        cols.a3_t_b3.operation is Some,
        cols.a4_t_b4.operation is Some,
        cols.a5_t_b5.operation is Some,
        cols.a6_t_b6.operation is Some,
        cols.sum1.operation is Some,
        cols.sum2.operation is Some,
        cols.sum3.operation is Some,
        cols.sum4.operation is Some,
        cols.sum5.operation is Some,
    ensures
        model::sum_of_products_lookups(cols) == seq![
            ByteLookups::FieldOp(cols.a1_t_b1.operation->0),
            ByteLookups::FieldOp(cols.a2_t_b2.operation->0),
            ByteLookups::FieldOp(cols.a3_t_b3.operation->0),
            ByteLookups::FieldOp(cols.a4_t_b4.operation->0),
            ByteLookups::FieldOp(cols.a5_t_b5.operation->0),
            ByteLookups::FieldOp(cols.a6_t_b6.operation->0),
            ByteLookups::FieldOp(cols.sum1.operation->0),
            ByteLookups::FieldOp(cols.sum2.operation->0),
            ByteLookups::FieldOp(cols.sum3.operation->0),
            ByteLookups::FieldOp(cols.sum4.operation->0),
            ByteLookups::FieldOp(cols.sum5.operation->0),
        ],
{
    assert(model::sum_of_products_lookups(cols) =~= seq![
        ByteLookups::FieldOp(cols.a1_t_b1.operation->0),
        ByteLookups::FieldOp(cols.a2_t_b2.operation->0),
        ByteLookups::FieldOp(cols.a3_t_b3.operation->0),
        ByteLookups::FieldOp(cols.a4_t_b4.operation->0),
        ByteLookups::FieldOp(cols.a5_t_b5.operation->0),
        ByteLookups::FieldOp(cols.a6_t_b6.operation->0),
        ByteLookups::FieldOp(cols.sum1.operation->0),
        ByteLookups::FieldOp(cols.sum2.operation->0),
        ByteLookups::FieldOp(cols.sum3.operation->0),
        ByteLookups::FieldOp(cols.sum4.operation->0),
        ByteLookups::FieldOp(cols.sum5.operation->0),
    ]);
}

/// A coefficientwise sum or difference asks for one lookup for each of its groups, in their order.
pub proof fn law_fp6_add_lookups_in_order(cols: Fp6AddCols<nat>)
    requires
        cols.a00_p_b00.operation is Some,
        cols.a01_p_b01.operation is Some,
        cols.a10_p_b10.operation is Some,
        cols.a11_p_b11.operation is Some,
        cols.a20_p_b20.operation is Some,
        cols.a21_p_b21.operation is Some,
    ensures
        model::fp6_add_lookups(cols) == seq![
            ByteLookups::FieldOp(cols.a00_p_b00.operation->0),
            ByteLookups::FieldOp(cols.a01_p_b01.operation->0),
            ByteLookups::FieldOp(cols.a10_p_b10.operation->0),
            ByteLookups::FieldOp(cols.a11_p_b11.operation->0),
            ByteLookups::FieldOp(cols.a20_p_b20.operation->0),
            ByteLookups::FieldOp(cols.a21_p_b21.operation->0),
        ],
{
    assert(model::fp6_add_lookups(cols) =~= seq![
        ByteLookups::FieldOp(cols.a00_p_b00.operation->0),
        ByteLookups::FieldOp(cols.a01_p_b01.operation->0),
        ByteLookups::FieldOp(cols.a10_p_b10.operation->0),
        ByteLookups::FieldOp(cols.a11_p_b11.operation->0),
        ByteLookups::FieldOp(cols.a20_p_b20.operation->0),
        ByteLookups::FieldOp(cols.a21_p_b21.operation->0),
    ]);
}

/// A product with the non-residue asks for one lookup for each of its groups, in their order.
pub proof fn law_fp6_mul_by_non_residue_lookups_in_order(cols: Fp6MulByNonResidueCols<nat>)
    requires
        cols.c00.operation is Some,
        cols.c01.operation is Some,
        cols.c10.operation is Some,
        cols.c11.operation is Some,
        cols.c20.operation is Some,
        cols.c21.operation is Some,
    ensures
        model::fp6_mul_by_non_residue_lookups(cols) == seq![
            ByteLookups::FieldOp(cols.c00.operation->0),
            ByteLookups::FieldOp(cols.c01.operation->0),
            ByteLookups::FieldOp(cols.c10.operation->0),
            ByteLookups::FieldOp(cols.c11.operation->0),
            ByteLookups::FieldOp(cols.c20.operation->0),
            ByteLookups::FieldOp(cols.c21.operation->0),
        ],
{
    assert(model::fp6_mul_by_non_residue_lookups(cols) =~= seq![
        ByteLookups::FieldOp(cols.c00.operation->0),
        ByteLookups::FieldOp(cols.c01.operation->0),
        ByteLookups::FieldOp(cols.c10.operation->0),
        ByteLookups::FieldOp(cols.c11.operation->0),
        ByteLookups::FieldOp(cols.c20.operation->0),
        ByteLookups::FieldOp(cols.c21.operation->0),
    ]);
}

/// A product of sextic elements asks for the lookups of each of its parts once, in their order.
pub proof fn law_fp6_mul_lookups_in_order(cols: Fp6MulCols<nat>)
    ensures
        model::fp6_mul_lookups(cols) == model::sum_of_products_aux_lookups(cols.aux)
            + model::sum_of_products_lookups(cols.c00)
            + model::sum_of_products_lookups(cols.c01)
            + model::sum_of_products_lookups(cols.c10)
            + model::sum_of_products_lookups(cols.c11)
            + model::sum_of_products_lookups(cols.c20)
            + model::sum_of_products_lookups(cols.c21),
{
    reveal(model::fp6_mul_lookups);
}

/// A product in the twelfth degree extension asks for the lookups of each of its parts once, in
/// their order.
pub proof fn law_fp12_mul_lookups_in_order(cols: AuxFp12MulCols<nat>)
    ensures
        model::fp12_mul_lookups(cols) == model::fp6_mul_lookups(cols.aa)
            + model::fp6_mul_lookups(cols.bb)
            + model::fp6_add_lookups(cols.o)
            + model::fp6_add_lookups(cols.y1)
            + model::fp6_mul_lookups(cols.y2)
            + model::fp6_add_lookups(cols.y3)
            + model::fp6_add_lookups(cols.y)
            + model::fp6_mul_by_non_residue_lookups(cols.x1)
            + model::fp6_add_lookups(cols.x),
{
    reveal(model::fp12_mul_lookups);
}

proof fn lemma_places(
    p0: Seq<ByteLookups<nat>>,
    p1: Seq<ByteLookups<nat>>,
    p2: Seq<ByteLookups<nat>>,
    p3: Seq<ByteLookups<nat>>,
    p4: Seq<ByteLookups<nat>>,
    p5: Seq<ByteLookups<nat>>,
    p6: Seq<ByteLookups<nat>>,
)
    requires
        p0.len() == 4,
        p1.len() == 11,
        p2.len() == 11,
        p3.len() == 11,
        p4.len() == 11,
        p5.len() == 11,
        p6.len() == 11,
    ensures
        ({
            let l = p0 + p1 + p2 + p3 + p4 + p5 + p6;
            &&& l.len() == 70
            &&& l.subrange(0, 4) == p0
            &&& l.subrange(4, 15) == p1
            &&& l.subrange(15, 26) == p2
            &&& l.subrange(26, 37) == p3
            &&& l.subrange(37, 48) == p4
            &&& l.subrange(48, 59) == p5
            &&& l.subrange(59, 70) == p6
        }),
{
    let l = p0 + p1 + p2 + p3 + p4 + p5 + p6;
    assert(l.subrange(0, 4) =~= p0);
    assert(l.subrange(4, 15) =~= p1);
    assert(l.subrange(15, 26) =~= p2);
    assert(l.subrange(26, 37) =~= p3);
    assert(l.subrange(37, 48) =~= p4);
    assert(l.subrange(48, 59) =~= p5);
    assert(l.subrange(59, 70) =~= p6);
}

/// A product of sextic elements asks for 70 lookups: those of the sums and differences, then those
/// of the sum of products of each coefficient.
pub proof fn law_fp6_mul_lookups_by_group(c: Context, a: Seq<nat>, b: Seq<nat>)
    ensures
        ({
            let cols = model::fp6_mul_cols(c, a, b);
            let l = model::fp6_mul_lookups(cols);
            &&& l.len() == 70
            &&& l.subrange(0, 4) == model::sum_of_products_aux_lookups(cols.aux)
            &&& l.subrange(4, 15) == model::sum_of_products_lookups(cols.c00)
            &&& l.subrange(15, 26) == model::sum_of_products_lookups(cols.c01)
            &&& l.subrange(26, 37) == model::sum_of_products_lookups(cols.c10)
            &&& l.subrange(37, 48) == model::sum_of_products_lookups(cols.c11)
            &&& l.subrange(48, 59) == model::sum_of_products_lookups(cols.c20)
            &&& l.subrange(59, 70) == model::sum_of_products_lookups(cols.c21)
        }),
{
    let m = c.modulus;
    let cols = model::fp6_mul_cols(c, a, b);
    law_fp6_mul_lookups_in_order(cols);
    assert(cols.aux == model::sum_of_products_aux_cols(c, b)) by {
        reveal(model::fp6_mul_cols);
    }
    layout::law_sum_of_products_aux_lookups(c, b);
    let (x0, y0) = (model::fp6_mul_left(a, 0), model::fp6_mul_right(m, b, 0));
    assert(cols.c00 == model::sum_of_products_cols(c, x0, y0)) by {
        reveal(model::fp6_mul_cols);
    }
    layout::law_sum_of_products_lookups(c, x0, y0);
    let (x1, y1) = (model::fp6_mul_left(a, 1), model::fp6_mul_right(m, b, 1));
    assert(cols.c01 == model::sum_of_products_cols(c, x1, y1)) by {
        reveal(model::fp6_mul_cols);
    }
    layout::law_sum_of_products_lookups(c, x1, y1);
    let (x2, y2) = (model::fp6_mul_left(a, 2), model::fp6_mul_right(m, b, 2));
    assert(cols.c10 == model::sum_of_products_cols(c, x2, y2)) by {
        reveal(model::fp6_mul_cols);
    }
    layout::law_sum_of_products_lookups(c, x2, y2);
    let (x3, y3) = (model::fp6_mul_left(a, 3), model::fp6_mul_right(m, b, 3));
    assert(cols.c11 == model::sum_of_products_cols(c, x3, y3)) by {
        reveal(model::fp6_mul_cols);
    }
    layout::law_sum_of_products_lookups(c, x3, y3);
    let (x4, y4) = (model::fp6_mul_left(a, 4), model::fp6_mul_right(m, b, 4));
    assert(cols.c20 == model::sum_of_products_cols(c, x4, y4)) by {
        reveal(model::fp6_mul_cols);
    }
    layout::law_sum_of_products_lookups(c, x4, y4);
    let (x5, y5) = (model::fp6_mul_left(a, 5), model::fp6_mul_right(m, b, 5));
    assert(cols.c21 == model::sum_of_products_cols(c, x5, y5)) by {
        reveal(model::fp6_mul_cols);
    }
    layout::law_sum_of_products_lookups(c, x5, y5);
    lemma_places(
        model::sum_of_products_aux_lookups(cols.aux),
        model::sum_of_products_lookups(cols.c00),
        model::sum_of_products_lookups(cols.c01),
        model::sum_of_products_lookups(cols.c10),
        model::sum_of_products_lookups(cols.c11),
        model::sum_of_products_lookups(cols.c20),
        model::sum_of_products_lookups(cols.c21),
    );
}

proof fn lemma_places_of_halves(
    aa: Seq<ByteLookups<nat>>,
    bb: Seq<ByteLookups<nat>>,
    o: Seq<ByteLookups<nat>>,
    y1: Seq<ByteLookups<nat>>,
    y2: Seq<ByteLookups<nat>>,
    y3: Seq<ByteLookups<nat>>,
    y: Seq<ByteLookups<nat>>,
    x1: Seq<ByteLookups<nat>>,
    x: Seq<ByteLookups<nat>>,
)
    requires
        aa.len() == 70,
        bb.len() == 70,
        o.len() == 6,
        y1.len() == 6,
        y2.len() == 70,
        y3.len() == 6,
        y.len() == 6,
        x1.len() == 6,
        x.len() == 6,
    ensures
        ({
            let l = aa + bb + o + y1 + y2 + y3 + y + x1 + x;
            &&& l.len() == 246
            &&& l.subrange(0, 70) == aa
            &&& l.subrange(70, 140) == bb
            &&& l.subrange(140, 146) == o
            &&& l.subrange(146, 152) == y1
            &&& l.subrange(152, 222) == y2
            &&& l.subrange(222, 228) == y3
            &&& l.subrange(228, 234) == y
            &&& l.subrange(234, 240) == x1
            &&& l.subrange(240, 246) == x
        }),
{
    let l = aa + bb + o + y1 + y2 + y3 + y + x1 + x;
    assert(l.subrange(0, 70) =~= aa);
    assert(l.subrange(70, 140) =~= bb);
    assert(l.subrange(140, 146) =~= o);
    assert(l.subrange(146, 152) =~= y1);
    assert(l.subrange(152, 222) =~= y2);
    assert(l.subrange(222, 228) =~= y3);
    assert(l.subrange(228, 234) =~= y);
    assert(l.subrange(234, 240) =~= x1);
    assert(l.subrange(240, 246) =~= x);
}

/// A product in the twelfth degree extension asks for 246 lookups: those of each of its nine parts,
/// once and at their places.
pub proof fn law_fp12_mul_lookups_by_group(c: Context, a: Seq<nat>, b: Seq<nat>)
    ensures
        ({
            let cols = model::fp12_mul_cols(c, a, b);
            let l = model::fp12_mul_lookups(cols);
            &&& l.len() == 246
            &&& l.subrange(0, 70) == model::fp6_mul_lookups(cols.aa)
            &&& l.subrange(70, 140) == model::fp6_mul_lookups(cols.bb)
            &&& l.subrange(140, 146) == model::fp6_add_lookups(cols.o)
            &&& l.subrange(146, 152) == model::fp6_add_lookups(cols.y1)
            &&& l.subrange(152, 222) == model::fp6_mul_lookups(cols.y2)
            &&& l.subrange(222, 228) == model::fp6_add_lookups(cols.y3)
            &&& l.subrange(228, 234) == model::fp6_add_lookups(cols.y)
            &&& l.subrange(234, 240) == model::fp6_mul_by_non_residue_lookups(cols.x1)
            &&& l.subrange(240, 246) == model::fp6_add_lookups(cols.x)
        }),
{
    let cols = model::fp12_mul_cols(c, a, b);
    let s = model::fp12_steps(c.modulus, a, b);
    law_fp12_mul_columns(c, a, b);
    law_fp12_mul_lookups_in_order(cols);
    layout::law_fp6_mul_lookups(c, model::lower(a), model::lower(b));
    layout::law_fp6_mul_lookups(c, model::upper(a), model::upper(b));
    layout::law_fp6_mul_lookups(c, s.y1, s.o);
    law_fp6_add_lookups_in_order(cols.o);
    law_fp6_add_lookups_in_order(cols.y1);
    law_fp6_add_lookups_in_order(cols.y3);
    law_fp6_add_lookups_in_order(cols.y);
    law_fp6_mul_by_non_residue_lookups_in_order(cols.x1);
    law_fp6_add_lookups_in_order(cols.x);
    lemma_places_of_halves(
        model::fp6_mul_lookups(cols.aa),
        model::fp6_mul_lookups(cols.bb),
        model::fp6_add_lookups(cols.o),
        model::fp6_add_lookups(cols.y1),
        model::fp6_mul_lookups(cols.y2),
        model::fp6_add_lookups(cols.y3),
        model::fp6_add_lookups(cols.y),
        model::fp6_mul_by_non_residue_lookups(cols.x1),
        model::fp6_add_lookups(cols.x),
    );
}

/// Whatever their order, the lookups of a product in the twelfth degree extension are those of its
/// nine parts, each as often as the parts ask for it.
pub proof fn law_fp12_mul_lookups_counted(cols: AuxFp12MulCols<nat>)
    ensures
        model::fp12_mul_lookups(cols).to_multiset() == model::fp6_mul_lookups(
            cols.aa,
        ).to_multiset().add(
            model::fp6_mul_lookups(cols.bb).to_multiset(),
        ).add(
            model::fp6_add_lookups(cols.o).to_multiset(),
        ).add(
            model::fp6_add_lookups(cols.y1).to_multiset(),
        ).add(
            model::fp6_mul_lookups(cols.y2).to_multiset(),
        ).add(
            model::fp6_add_lookups(cols.y3).to_multiset(),
        ).add(
            model::fp6_add_lookups(cols.y).to_multiset(),
        ).add(
            model::fp6_mul_by_non_residue_lookups(cols.x1).to_multiset(),
        ).add(
            model::fp6_add_lookups(cols.x).to_multiset(),
        ),
{
    law_fp12_mul_lookups_in_order(cols);
    let l0 = model::fp6_mul_lookups(cols.aa);
    let l1 = l0 + model::fp6_mul_lookups(cols.bb);
    vstd::seq_lib::lemma_multiset_commutative(l0, model::fp6_mul_lookups(cols.bb));
    let l2 = l1 + model::fp6_add_lookups(cols.o);
    vstd::seq_lib::lemma_multiset_commutative(l1, model::fp6_add_lookups(cols.o));
    let l3 = l2 + model::fp6_add_lookups(cols.y1);
    vstd::seq_lib::lemma_multiset_commutative(l2, model::fp6_add_lookups(cols.y1));
    let l4 = l3 + model::fp6_mul_lookups(cols.y2);
    vstd::seq_lib::lemma_multiset_commutative(l3, model::fp6_mul_lookups(cols.y2));
    let l5 = l4 + model::fp6_add_lookups(cols.y3);
    vstd::seq_lib::lemma_multiset_commutative(l4, model::fp6_add_lookups(cols.y3));
    let l6 = l5 + model::fp6_add_lookups(cols.y);
    vstd::seq_lib::lemma_multiset_commutative(l5, model::fp6_add_lookups(cols.y));
    let l7 = l6 + model::fp6_mul_by_non_residue_lookups(cols.x1);
    vstd::seq_lib::lemma_multiset_commutative(l6, model::fp6_mul_by_non_residue_lookups(cols.x1));
    let l8 = l7 + model::fp6_add_lookups(cols.x);
    vstd::seq_lib::lemma_multiset_commutative(l7, model::fp6_add_lookups(cols.x));
}

} // verus!
