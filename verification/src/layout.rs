//! What holds of the columns and the lookups of the operations as a whole.
use vstd::prelude::*;

use crate::algebra;
use crate::columns::ByteLookups;
use crate::columns::Fp6AddCols;
use crate::columns::Fp6MulByNonResidueCols;
use crate::columns::Fp6MulCols;
use crate::model;
use crate::model::Context;

verus! {

/// Whether a lookup is that of a field operation of the context `c`.
pub open spec fn is_operation_of(c: Context, lookup: ByteLookups<nat>) -> bool {
    match lookup {
        ByteLookups::FieldOp(op) => {
            &&& op.shard == c.shard
            &&& op.channel == c.channel
            &&& op.modulus == c.modulus
        },
        _ => false,
    }
}

/// Whether `lookups` are those of `n` field operations of the context `c`.
pub open spec fn are_operations_of(
    c: Context,
    lookups: Seq<ByteLookups<nat>>,
    n: nat,
) -> bool {
    &&& lookups.len() == n
    &&& forall|i: int| 0 <= i < n ==> is_operation_of(c, #[trigger] lookups[i])
}

proof fn lemma_join(
    c: Context,
    x: Seq<ByteLookups<nat>>,
    n: nat,
    y: Seq<ByteLookups<nat>>,
    k: nat,
)
    requires
        are_operations_of(c, x, n),
        are_operations_of(c, y, k),
    ensures
        are_operations_of(c, x + y, n + k),
{
}

/// The sums and differences of coefficients that a product of sextic elements uses ask for the
/// lookups of four operations.
pub proof fn law_sum_of_products_aux_lookups(c: Context, b: Seq<nat>)
    ensures
        are_operations_of(
            c,
            model::sum_of_products_aux_lookups(model::sum_of_products_aux_cols(c, b)),
            4,
        ),
{
}

/// A sum of products asks for the lookups of eleven operations.
pub proof fn law_sum_of_products_lookups(c: Context, a: Seq<(i8, nat)>, b: Seq<(i8, nat)>)
    ensures
        are_operations_of(
            c,
            model::sum_of_products_lookups(model::sum_of_products_cols(c, a, b)),
            11,
        ),
{
}

/// A product of sextic elements asks for the lookups of 70 operations.
pub proof fn law_fp6_mul_lookups(c: Context, a: Seq<nat>, b: Seq<nat>)
    ensures
        are_operations_of(c, model::fp6_mul_lookups(model::fp6_mul_cols(c, a, b)), 70),
{
    reveal(model::fp6_mul_cols);
    reveal(model::fp6_mul_lookups);
    let m = c.modulus;
    let cols = model::fp6_mul_cols(c, a, b);
    law_sum_of_products_aux_lookups(c, b);
    law_sum_of_products_lookups(c, model::fp6_mul_left(a, 0), model::fp6_mul_right(m, b, 0));
    law_sum_of_products_lookups(c, model::fp6_mul_left(a, 1), model::fp6_mul_right(m, b, 1));
    law_sum_of_products_lookups(c, model::fp6_mul_left(a, 2), model::fp6_mul_right(m, b, 2));
    law_sum_of_products_lookups(c, model::fp6_mul_left(a, 3), model::fp6_mul_right(m, b, 3));
    law_sum_of_products_lookups(c, model::fp6_mul_left(a, 4), model::fp6_mul_right(m, b, 4));
    law_sum_of_products_lookups(c, model::fp6_mul_left(a, 5), model::fp6_mul_right(m, b, 5));
    lemma_join_seven(
        c,
        model::sum_of_products_aux_lookups(cols.aux),
        model::sum_of_products_lookups(cols.c00),
        model::sum_of_products_lookups(cols.c01),
        model::sum_of_products_lookups(cols.c10),
        model::sum_of_products_lookups(cols.c11),
        model::sum_of_products_lookups(cols.c20),
        model::sum_of_products_lookups(cols.c21),
    );
}

proof fn lemma_join_seven(
    c: Context,
    aux: Seq<ByteLookups<nat>>,
    c00: Seq<ByteLookups<nat>>,
    c01: Seq<ByteLookups<nat>>,
    c10: Seq<ByteLookups<nat>>,
    c11: Seq<ByteLookups<nat>>,
    c20: Seq<ByteLookups<nat>>,
    c21: Seq<ByteLookups<nat>>,
)
    requires
        are_operations_of(c, aux, 4),
        are_operations_of(c, c00, 11),
        are_operations_of(c, c01, 11),
        are_operations_of(c, c10, 11),
        are_operations_of(c, c11, 11),
        are_operations_of(c, c20, 11),
        are_operations_of(c, c21, 11),
    ensures
        are_operations_of(c, aux + c00 + c01 + c10 + c11 + c20 + c21, 70),
{
    lemma_join(c, aux, 4, c00, 11);
    lemma_join(c, aux + c00, 15, c01, 11);
    lemma_join(c, aux + c00 + c01, 26, c10, 11);
    lemma_join(c, aux + c00 + c01 + c10, 37, c11, 11);
    lemma_join(c, aux + c00 + c01 + c10 + c11, 48, c20, 11);
    lemma_join(c, aux + c00 + c01 + c10 + c11 + c20, 59, c21, 11);
}

/// A coefficientwise sum or difference asks for the lookups of six operations.
pub proof fn law_fp6_add_lookups(c: Context, a: Seq<nat>, b: Seq<nat>)
    ensures
        are_operations_of(c, model::fp6_add_lookups(model::fp6_add_cols(c, a, b)), 6),
        are_operations_of(c, model::fp6_add_lookups(model::fp6_sub_cols(c, a, b)), 6),
{
}

/// A product with the non-residue asks for the lookups of six operations.
pub proof fn law_fp6_mul_by_non_residue_lookups(c: Context, a: Seq<nat>)
    ensures
        are_operations_of(
            c,
            model::fp6_mul_by_non_residue_lookups(model::fp6_mul_by_non_residue_cols(c, a)),
            6,
        ),
{
}

proof fn lemma_join_nine(
    c: Context,
    aa: Seq<ByteLookups<nat>>,
    bb: Seq<ByteLookups<nat>>,
    o: Seq<ByteLookups<nat>>,
    y1: Seq<ByteLookups<nat>>,
    y2: Seq<ByteLookups<nat>>,
    y3: Seq<ByteLookups<nat>>,
    y: Seq<ByteLookups<nat>>,
    x1: Seq<ByteLookups<nat>>,
    x: Seq<ByteLookups<nat>>,
)
    requires
        are_operations_of(c, aa, 70),
        are_operations_of(c, bb, 70),
        are_operations_of(c, o, 6),
        are_operations_of(c, y1, 6),
        are_operations_of(c, y2, 70),
        are_operations_of(c, y3, 6),
        are_operations_of(c, y, 6),
        are_operations_of(c, x1, 6),
        are_operations_of(c, x, 6),
    ensures
        are_operations_of(c, aa + bb + o + y1 + y2 + y3 + y + x1 + x, 246),
{
    lemma_join(c, aa, 70, bb, 70);
    lemma_join(c, aa + bb, 140, o, 6);
    lemma_join(c, aa + bb + o, 146, y1, 6);
    lemma_join(c, aa + bb + o + y1, 152, y2, 70);
    lemma_join(c, aa + bb + o + y1 + y2, 222, y3, 6);
    lemma_join(c, aa + bb + o + y1 + y2 + y3, 228, y, 6);
    lemma_join(c, aa + bb + o + y1 + y2 + y3 + y, 234, x1, 6);
    lemma_join(c, aa + bb + o + y1 + y2 + y3 + y + x1, 240, x, 6);
}

/// A product in the twelfth degree extension asks for the lookups of 246 operations, all of them of
/// the context in which it runs.
pub proof fn law_fp12_mul_lookups(c: Context, a: Seq<nat>, b: Seq<nat>)
    ensures
        are_operations_of(c, model::fp12_mul_lookups(model::fp12_mul_cols(c, a, b)), 246),
{
    reveal(model::fp12_mul_cols);
    reveal(model::fp12_mul_lookups);
    let cols = model::fp12_mul_cols(c, a, b);
    let s = model::fp12_steps(c.modulus, a, b);
    law_fp6_mul_lookups(c, model::lower(a), model::lower(b));
    law_fp6_mul_lookups(c, model::upper(a), model::upper(b));
    law_fp6_add_lookups(c, model::lower(b), model::upper(b));
    law_fp6_add_lookups(c, model::upper(a), model::lower(a));
    law_fp6_mul_lookups(c, s.y1, s.o);
    law_fp6_add_lookups(c, s.y2, s.aa);
    law_fp6_add_lookups(c, s.y3, s.bb);
    law_fp6_mul_by_non_residue_lookups(c, s.bb);
    law_fp6_add_lookups(c, s.x1, s.aa);
    lemma_join_nine(
        c,
        model::fp6_mul_lookups(cols.aa),
        model::fp6_mul_lookups(cols.bb),
        model::fp6_add_lookups(cols.o),
        model::fp6_add_lookups(cols.y1),
        model::fp6_mul_lookups(cols.y2),
        model::fp6_add_lookups(cols.y3),
        model::fp6_add_lookups(cols.y),
        model::fp6_mul_by_non_residue_lookups(cols.x1),
        model::fp6_add_lookups(cols.x),
    );
}

/// Columns in which an operation is laid out hold its result.
pub proof fn law_operations_held(c: Context, a: nat, b: nat)
    requires
        c.modulus > 0,
    ensures
        model::mul_cols(c, a, b).holds(model::mul_mod(c.modulus, a, b)),
        model::add_cols(c, a, b).holds(model::add_mod(c.modulus, a, b)),
        model::sub_cols(c, a, b).holds(model::sub_mod(c.modulus, a, b)),
{
}

/// The columns of the sums and differences of coefficients hold them.
pub proof fn law_sum_of_products_aux_held(c: Context, b: Seq<nat>)
    requires
        c.modulus > 0,
    ensures
        ({
            let cols = model::sum_of_products_aux_cols(c, b);
            let r = model::sum_of_products_aux(c.modulus, b);
            &&& cols.b10_p_b11.holds(r[0])
            &&& cols.b10_m_b11.holds(r[1])
            &&& cols.b20_p_b21.holds(r[2])
            &&& cols.b20_m_b21.holds(r[3])
        }),
{
}

/// The columns of each step of a sum of products hold the sum of the products up to that step, and
/// those of the last step the whole sum.
pub proof fn law_sum_of_products_held(c: Context, a: Seq<(i8, nat)>, b: Seq<(i8, nat)>)
    requires
        c.modulus > 0,
    ensures
        ({
            let cols = model::sum_of_products_cols(c, a, b);
            &&& cols.sum1.holds(model::residue(c.modulus, model::partial_sum(a, b, 1)))
            &&& cols.sum2.holds(model::residue(c.modulus, model::partial_sum(a, b, 2)))
            &&& cols.sum3.holds(model::residue(c.modulus, model::partial_sum(a, b, 3)))
            &&& cols.sum4.holds(model::residue(c.modulus, model::partial_sum(a, b, 4)))
            &&& cols.sum5.holds(model::sum_of_products(c.modulus, a, b))
        }),
{
    algebra::lemma_step(c.modulus, a, b, 1);
    algebra::lemma_step(c.modulus, a, b, 2);
    algebra::lemma_step(c.modulus, a, b, 3);
    algebra::lemma_step(c.modulus, a, b, 4);
    algebra::lemma_step(c.modulus, a, b, 5);
    algebra::lemma_sum_of_products(c.modulus, a, b);
}

/// Whether the last steps of the six sums of products hold the coefficients `r`.
pub open spec fn holds_product(cols: Fp6MulCols<nat>, r: Seq<nat>) -> bool {
    &&& cols.c00.sum5.holds(r[0])
    &&& cols.c01.sum5.holds(r[1])
    &&& cols.c10.sum5.holds(r[2])
    &&& cols.c11.sum5.holds(r[3])
    &&& cols.c20.sum5.holds(r[4])
    &&& cols.c21.sum5.holds(r[5])
}

/// Whether the columns of a coefficientwise sum or difference hold the coefficients `r`.
pub open spec fn holds_sum(cols: Fp6AddCols<nat>, r: Seq<nat>) -> bool {
    &&& cols.a00_p_b00.holds(r[0])
    &&& cols.a01_p_b01.holds(r[1])
    &&& cols.a10_p_b10.holds(r[2])
    &&& cols.a11_p_b11.holds(r[3])
    &&& cols.a20_p_b20.holds(r[4])
    &&& cols.a21_p_b21.holds(r[5])
}

/// Whether the columns of a product with the non-residue hold the coefficients `r`.
pub open spec fn holds_moved(cols: Fp6MulByNonResidueCols<nat>, r: Seq<nat>) -> bool {
    &&& cols.c00.holds(r[0])
    &&& cols.c01.holds(r[1])
    &&& cols.c10.holds(r[2])
    &&& cols.c11.holds(r[3])
    &&& cols.c20.holds(r[4])
    &&& cols.c21.holds(r[5])
}

/// The columns of a product of sextic elements hold it.
pub proof fn law_fp6_mul_held(c: Context, a: Seq<nat>, b: Seq<nat>)
    requires
        c.modulus > 0,
        a.len() == 6,
        b.len() == 6,
    ensures
        holds_product(model::fp6_mul_cols(c, a, b), model::fp6_mul(c.modulus, a, b)),
{
    reveal(model::fp6_mul_cols);
    let m = c.modulus;
    let r = model::fp6_mul(m, a, b);
    assert forall|k: int| 0 <= k < 6 implies (
    #[trigger] model::fp6_mul_coefficient_cols(c, a, b, k)).sum5.holds(r[k]) by {
        algebra::lemma_coefficient(m, a, b, k);
        law_sum_of_products_held(c, model::fp6_mul_left(a, k), model::fp6_mul_right(m, b, k));
    }
}

/// The columns of a coefficientwise sum and those of a coefficientwise difference hold them.
pub proof fn law_fp6_add_held(c: Context, a: Seq<nat>, b: Seq<nat>)
    requires
        c.modulus > 0,
    ensures
        holds_sum(model::fp6_add_cols(c, a, b), model::fp6_add(c.modulus, a, b)),
        holds_sum(model::fp6_sub_cols(c, a, b), model::fp6_sub(c.modulus, a, b)),
{
}

/// The columns of a product of a reduced element with the non-residue hold it.
pub proof fn law_fp6_mul_by_non_residue_held(c: Context, a: Seq<nat>)
    requires
        c.modulus > 0,
        a.len() == 6,
        forall|i: int| 0 <= i < 6 ==> #[trigger] a[i] < c.modulus,
    ensures
        holds_moved(
            model::fp6_mul_by_non_residue_cols(c, a),
            model::fp6_mul_by_non_residue(c.modulus, a),
        ),
{
    vstd::arithmetic::div_mod::lemma_small_mod(a[0], c.modulus);
    vstd::arithmetic::div_mod::lemma_small_mod(a[1], c.modulus);
    vstd::arithmetic::div_mod::lemma_small_mod(a[2], c.modulus);
    vstd::arithmetic::div_mod::lemma_small_mod(a[3], c.modulus);
}

/// The columns of a product in the twelfth degree extension hold the sextic elements on the way to
/// it; of these, those of `x` and `y` hold the halves of the product.
pub proof fn law_fp12_mul_held(c: Context, a: Seq<nat>, b: Seq<nat>)
    requires
        c.modulus > 0,
        a.len() == 12,
        b.len() == 12,
    ensures
        ({
            let cols = model::fp12_mul_cols(c, a, b);
            let s = model::fp12_steps(c.modulus, a, b);
            &&& holds_product(cols.aa, s.aa)
            &&& holds_product(cols.bb, s.bb)
            &&& holds_sum(cols.o, s.o)
            &&& holds_sum(cols.y1, s.y1)
            &&& holds_product(cols.y2, s.y2)
            &&& holds_sum(cols.y3, s.y3)
            &&& holds_moved(cols.x1, s.x1)
            &&& holds_sum(cols.x, model::lower(model::fp12_mul(c.modulus, a, b)))
            &&& holds_sum(cols.y, model::upper(model::fp12_mul(c.modulus, a, b)))
        }),
{
    reveal(model::fp12_mul_cols);
    let s = model::fp12_steps(c.modulus, a, b);
    law_fp6_mul_held(c, model::lower(a), model::lower(b));
    law_fp6_mul_held(c, model::upper(a), model::upper(b));
    law_fp6_mul_held(c, s.y1, s.o);
    law_fp6_add_held(c, model::lower(b), model::upper(b));
    law_fp6_add_held(c, model::upper(a), model::lower(a));
    law_fp6_add_held(c, s.y2, s.aa);
    law_fp6_add_held(c, s.y3, s.bb);
    law_fp6_add_held(c, s.x1, s.aa);
    law_fp6_mul_by_non_residue_held(c, s.bb);
    algebra::lemma_fp12_steps(c.modulus, a, b);
    assert(model::lower(s.x + s.y) =~= s.x);
    assert(model::upper(s.x + s.y) =~= s.y);
}

} // verus!
