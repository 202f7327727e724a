//! What the values in contracts stand for: each part of a value is that of the data it describes.
use vstd::prelude::*;

use crate::columns;
use crate::columns::AuxFp12MulCols;
use crate::columns::ByteLookups;
use crate::columns::FieldOp;
use crate::columns::FieldOpCols;
use crate::columns::FieldOperation;
use crate::columns::Fp6AddCols;
use crate::columns::Fp6MulByNonResidueCols;
use crate::columns::Fp6MulCols;
use crate::columns::SumOfProductsAuxillaryCols;
use crate::columns::SumOfProductsCols;
use crate::constraints::ConstraintsState;
use crate::constraints::Fp12MulChipConstraints;
use crate::model;
use crate::natural::Natural;

verus! {

/// The values of a sequence of numbers are those of the numbers, in their order.
pub proof fn law_values(s: Seq<Natural>, i: int)
    requires
        0 <= i < s.len(),
    ensures
        model::values(s).len() == s.len(),
        model::values(s)[i] == s[i]@,
{
}

/// The values of a sequence of references are those of the numbers, in their order.
pub proof fn law_ref_values(s: Seq<&Natural>, i: int)
    requires
        0 <= i < s.len(),
    ensures
        model::ref_values(s).len() == s.len(),
        model::ref_values(s)[i] == s[i]@,
{
}

/// The values of signed factors are those of the factors, in their order, with their signs.
pub proof fn law_signed_values(s: Seq<(i8, &Natural)>, i: int)
    requires
        0 <= i < s.len(),
    ensures
        model::signed_values(s).len() == s.len(),
        model::signed_values(s)[i].0 == s[i].0,
        model::signed_values(s)[i].1 == s[i].1@,
{
}

/// An operation in a contract has the parts of the operation in code.
pub proof fn law_field_op_view(op: FieldOp<Natural>)
    ensures
        op@.shard == op.shard,
        op@.channel == op.channel,
        op@.a == op.a@,
        op@.b == op.b@,
        op@.modulus == op.modulus@,
        op@.op == op.op,
{
}

/// Columns in a contract have an operation where those in code have, and the same one.
pub proof fn law_field_op_cols_view(cols: FieldOpCols<Natural>)
    ensures
        cols@.operation is Some <==> cols.operation is Some,
        cols.operation is Some ==> cols@.operation->0 == cols.operation->0@,
{
}

/// A lookup in a contract is of the kind of the lookup in code, and of the same access or
/// operation.
pub proof fn law_byte_lookups_view(lookups: ByteLookups<Natural>)
    ensures
        match lookups {
            ByteLookups::MemoryWrite(access) => lookups@ == ByteLookups::<nat>::MemoryWrite(access),
            ByteLookups::MemoryRead(access) => lookups@ == ByteLookups::<nat>::MemoryRead(access),
            ByteLookups::FieldOp(op) => lookups@ == ByteLookups::<nat>::FieldOp(op@),
        },
{
}

/// A list of lookups in a contract has the lookups of the list in code, in their order.
pub proof fn law_lookup_values(lookups: Seq<ByteLookups<Natural>>, i: int)
    requires
        0 <= i < lookups.len(),
    ensures
        columns::lookup_values(lookups).len() == lookups.len(),
        columns::lookup_values(lookups)[i] == lookups[i]@,
{
}

/// A state in a contract has the parts of the state in code.
pub proof fn law_constraints_view(constraints: Fp12MulChipConstraints)
    ensures
        constraints@.context.shard == constraints.shard,
        constraints@.context.channel == constraints.channel,
        constraints@.context.modulus == constraints.modulus@,
        constraints@.lookups == columns::lookup_values(
            constraints.new_byte_lookup_events@,
        ),
{
}

/// Laying out more columns keeps the shard, the channel, the modulus and the lookups so far, and
/// puts the new lookups behind them.
pub proof fn law_after(state: ConstraintsState, more: Seq<ByteLookups<nat>>)
    ensures
        state.after(more).context.shard == state.context.shard,
        state.after(more).context.channel == state.context.channel,
        state.after(more).context.modulus == state.context.modulus,
        state.after(more).lookups.len() == state.lookups.len() + more.len(),
        forall|i: int|
            0 <= i < state.lookups.len() ==> #[trigger] state.after(more).lookups[i]
                == state.lookups[i],
        forall|i: int|
            0 <= i < more.len() ==> state.after(more).lookups[state.lookups.len() + i]
                == #[trigger] more[i],
{
}

/// The result of an operation is the one number below the modulus that is congruent to the sum, the
/// product or the difference of the operands, or whose product with the second is congruent to the
/// first.
pub proof fn law_results_in(op: FieldOp<nat>, r: nat)
    requires
        op.modulus > 0,
    ensures
        op.op == FieldOperation::Add ==> (op.results_in(r) <==> r == (op.a + op.b) % op.modulus),
        op.op == FieldOperation::Mul ==> (op.results_in(r) <==> r == (op.a * op.b) % op.modulus),
        op.op == FieldOperation::Sub ==> (op.results_in(r) <==> r == (op.a - op.b) % (
        op.modulus as int)),
        op.op == FieldOperation::Div ==> (op.results_in(r) <==> r < op.modulus && (r * op.b)
            % op.modulus == op.a % op.modulus),
{
}

/// Columns hold the results of the operation laid out in them, and nothing where there is none.
pub proof fn law_holds(cols: FieldOpCols<nat>, r: nat)
    ensures
        cols.operation is Some ==> (cols.holds(r) <==> cols.operation->0.results_in(r)),
        cols.operation is None ==> !cols.holds(r),
{
}

/// In a contract the columns of sums and differences of coefficients are
/// those in code, group by group.
pub proof fn law_sum_of_products_aux_view(cols: SumOfProductsAuxillaryCols<Natural>)
    ensures
        cols@.b10_p_b11 == cols.b10_p_b11@,
        cols@.b10_m_b11 == cols.b10_m_b11@,
        cols@.b20_p_b21 == cols.b20_p_b21@,
        cols@.b20_m_b21 == cols.b20_m_b21@,
{
}

/// In a contract the columns of a sum of products are
/// those in code, group by group.
pub proof fn law_sum_of_products_view(cols: SumOfProductsCols<Natural>)
    ensures
        cols@.a1_t_b1 == cols.a1_t_b1@,
        cols@.a2_t_b2 == cols.a2_t_b2@,
        cols@.a3_t_b3 == cols.a3_t_b3@,
        cols@.a4_t_b4 == cols.a4_t_b4@,
        cols@.a5_t_b5 == cols.a5_t_b5@,
        cols@.a6_t_b6 == cols.a6_t_b6@,
        cols@.sum1 == cols.sum1@,
        cols@.sum2 == cols.sum2@,
        cols@.sum3 == cols.sum3@,
        cols@.sum4 == cols.sum4@,
        cols@.sum5 == cols.sum5@,
{
}

/// In a contract the columns of a product of sextic elements are
/// those in code, group by group.
pub proof fn law_fp6_mul_view(cols: Fp6MulCols<Natural>)
    ensures
        cols@.aux == cols.aux@,
        cols@.c00 == cols.c00@,
        cols@.c01 == cols.c01@,
        cols@.c10 == cols.c10@,
        cols@.c11 == cols.c11@,
        cols@.c20 == cols.c20@,
        cols@.c21 == cols.c21@,
{
    reveal(<Fp6MulCols<Natural> as View>::view);
}

/// In a contract the columns of a coefficientwise sum are
/// those in code, group by group.
pub proof fn law_fp6_add_view(cols: Fp6AddCols<Natural>)
    ensures
        cols@.a00_p_b00 == cols.a00_p_b00@,
        cols@.a01_p_b01 == cols.a01_p_b01@,
        cols@.a10_p_b10 == cols.a10_p_b10@,
        cols@.a11_p_b11 == cols.a11_p_b11@,
        cols@.a20_p_b20 == cols.a20_p_b20@,
        cols@.a21_p_b21 == cols.a21_p_b21@,
{
}

/// In a contract the columns of a product with the non-residue are
/// those in code, group by group.
pub proof fn law_fp6_mul_by_non_residue_view(cols: Fp6MulByNonResidueCols<Natural>)
    ensures
        cols@.c00 == cols.c00@,
        cols@.c01 == cols.c01@,
        cols@.c10 == cols.c10@,
        cols@.c11 == cols.c11@,
        cols@.c20 == cols.c20@,
        cols@.c21 == cols.c21@,
{
}

/// In a contract the columns of a product in the twelfth degree extension are
/// those in code, group by group.
pub proof fn law_fp12_mul_view(cols: AuxFp12MulCols<Natural>)
    ensures
        cols@.aa == cols.aa@,
        cols@.bb == cols.bb@,
        cols@.o == cols.o@,
        cols@.y1 == cols.y1@,
        cols@.y2 == cols.y2@,
        cols@.y3 == cols.y3@,
        cols@.y == cols.y@,
        cols@.x1 == cols.x1@,
        cols@.x == cols.x@,
{
}

/// Nothing is laid out in blank columns of any kind.
pub proof fn law_blank()
    ensures
        FieldOpCols::<nat>::blank().operation is None,
        SumOfProductsAuxillaryCols::<nat>::blank().b10_p_b11.operation is None,
        SumOfProductsAuxillaryCols::<nat>::blank().b10_m_b11.operation is None,
        SumOfProductsAuxillaryCols::<nat>::blank().b20_p_b21.operation is None,
        SumOfProductsAuxillaryCols::<nat>::blank().b20_m_b21.operation is None,
        SumOfProductsCols::<nat>::blank().a1_t_b1.operation is None,
        SumOfProductsCols::<nat>::blank().a2_t_b2.operation is None,
        SumOfProductsCols::<nat>::blank().a3_t_b3.operation is None,
        SumOfProductsCols::<nat>::blank().a4_t_b4.operation is None,
        SumOfProductsCols::<nat>::blank().a5_t_b5.operation is None,
        SumOfProductsCols::<nat>::blank().a6_t_b6.operation is None,
        SumOfProductsCols::<nat>::blank().sum1.operation is None,
        SumOfProductsCols::<nat>::blank().sum2.operation is None,
        SumOfProductsCols::<nat>::blank().sum3.operation is None,
        SumOfProductsCols::<nat>::blank().sum4.operation is None,
        SumOfProductsCols::<nat>::blank().sum5.operation is None,
        Fp6MulCols::<nat>::blank().aux == SumOfProductsAuxillaryCols::<nat>::blank(),
        Fp6MulCols::<nat>::blank().c00 == SumOfProductsCols::<nat>::blank(),
        Fp6MulCols::<nat>::blank().c01 == SumOfProductsCols::<nat>::blank(),
        Fp6MulCols::<nat>::blank().c10 == SumOfProductsCols::<nat>::blank(),
        Fp6MulCols::<nat>::blank().c11 == SumOfProductsCols::<nat>::blank(),
        Fp6MulCols::<nat>::blank().c20 == SumOfProductsCols::<nat>::blank(),
        Fp6MulCols::<nat>::blank().c21 == SumOfProductsCols::<nat>::blank(),
        Fp6AddCols::<nat>::blank().a00_p_b00.operation is None,
        Fp6AddCols::<nat>::blank().a01_p_b01.operation is None,
        Fp6AddCols::<nat>::blank().a10_p_b10.operation is None,
        Fp6AddCols::<nat>::blank().a11_p_b11.operation is None,
        Fp6AddCols::<nat>::blank().a20_p_b20.operation is None,
        Fp6AddCols::<nat>::blank().a21_p_b21.operation is None,
        Fp6MulByNonResidueCols::<nat>::blank().c00.operation is None,
        Fp6MulByNonResidueCols::<nat>::blank().c01.operation is None,
        Fp6MulByNonResidueCols::<nat>::blank().c10.operation is None,
        Fp6MulByNonResidueCols::<nat>::blank().c11.operation is None,
        Fp6MulByNonResidueCols::<nat>::blank().c20.operation is None,
        Fp6MulByNonResidueCols::<nat>::blank().c21.operation is None,
        AuxFp12MulCols::<nat>::blank().aa == Fp6MulCols::<nat>::blank(),
        AuxFp12MulCols::<nat>::blank().bb == Fp6MulCols::<nat>::blank(),
        AuxFp12MulCols::<nat>::blank().o == Fp6AddCols::<nat>::blank(),
        AuxFp12MulCols::<nat>::blank().y1 == Fp6AddCols::<nat>::blank(),
        AuxFp12MulCols::<nat>::blank().y2 == Fp6MulCols::<nat>::blank(),
        AuxFp12MulCols::<nat>::blank().y3 == Fp6AddCols::<nat>::blank(),
        AuxFp12MulCols::<nat>::blank().y == Fp6AddCols::<nat>::blank(),
        AuxFp12MulCols::<nat>::blank().x1 == Fp6MulByNonResidueCols::<nat>::blank(),
        AuxFp12MulCols::<nat>::blank().x == Fp6AddCols::<nat>::blank(),
{
    reveal(Fp6MulCols::<_>::blank);
}

} // verus!
