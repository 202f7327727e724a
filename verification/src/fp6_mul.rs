//! The product of elements of the sextic extension.
use vstd::prelude::*;

use crate::algebra;
use crate::columns::ByteLookups;
use crate::columns::Fp6MulCols;
use crate::columns::SumOfProductsAuxillaryCols;
use crate::columns::SumOfProductsCols;
use crate::constraints;
use crate::constraints::Fp12MulChipConstraints;
use crate::model;
use crate::model::Context;
use crate::natural::Natural;

verus! {

/// The columns of one coefficient, with their numbers as `nat`.
#[verifier::opaque]
spec fn coefficient_view(cols: SumOfProductsCols<Natural>) -> SumOfProductsCols<nat> {
    cols@
}

/// The columns of the sums and differences, with their numbers as `nat`.
#[verifier::opaque]
spec fn aux_view(cols: SumOfProductsAuxillaryCols<Natural>) -> SumOfProductsAuxillaryCols<nat> {
    cols@
}

/// Coefficient `k` of the product of `a` and `b`.
#[verifier::opaque]
spec fn coefficient(m: nat, a: Seq<nat>, b: Seq<nat>, k: int) -> nat {
    model::sum_of_products(m, model::fp6_mul_left(a, k), model::fp6_mul_right(m, b, k))
}

/// The columns of coefficient `k`.
#[verifier::opaque]
spec fn coefficient_cols(
    c: Context,
    a: Seq<nat>,
    b: Seq<nat>,
    k: int,
) -> SumOfProductsCols<nat> {
    model::fp6_mul_coefficient_cols(c, a, b, k)
}

/// The lookups of one coefficient.
#[verifier::opaque]
spec fn coefficient_lookups(cols: SumOfProductsCols<nat>) -> Seq<ByteLookups<nat>> {
    model::sum_of_products_lookups(cols)
}

/// Whether `aux` holds the sums and differences of the coefficients of `b`.
#[verifier::opaque]
spec fn is_aux(m: nat, b: Seq<nat>, aux: Seq<nat>) -> bool {
    aux == model::sum_of_products_aux(m, b)
}

/// The columns of the sums and differences.
#[verifier::opaque]
spec fn aux_cols(c: Context, b: Seq<nat>) -> SumOfProductsAuxillaryCols<nat> {
    model::sum_of_products_aux_cols(c, b)
}

/// The lookups of the sums and differences.
#[verifier::opaque]
spec fn aux_lookups(cols: SumOfProductsAuxillaryCols<nat>) -> Seq<ByteLookups<nat>> {
    model::sum_of_products_aux_lookups(cols)
}

/// The factors `x`, all with the sign 1.
fn plain<'a>(x: [&'a Natural; 6]) -> (r: [(i8, &'a Natural); 6])
    ensures
        model::signed_values(r@) == model::plain(model::ref_values(x@)),
{
    let r: [(i8, &Natural); 6] = [
        (1, x[0]),
        (1, x[1]),
        (1, x[2]),
        (1, x[3]),
        (1, x[4]),
        (1, x[5]),
    ];
    assert(model::signed_values(r@) =~= model::plain(model::ref_values(x@)));
    r
}

/// The factors `x`, with the signs 1 and -1 in turn.
fn alternating<'a>(x: [&'a Natural; 6]) -> (r: [(i8, &'a Natural); 6])
    ensures
        model::signed_values(r@) == model::alternating(model::ref_values(x@)),
{
    let r: [(i8, &Natural); 6] = [
        (1, x[0]),
        (-1, x[1]),
        (1, x[2]),
        (-1, x[3]),
        (1, x[4]),
        (-1, x[5]),
    ];
    assert(model::signed_values(r@) =~= model::alternating(model::ref_values(x@)));
    r
}

/// The left factors of coefficient `k`.
fn left_factors<'a>(a: &'a [Natural; 6], k: usize) -> (r: [(i8, &'a Natural); 6])
    ensures
        model::signed_values(r@) == model::fp6_mul_left(model::values(a@), k as int),
{
    let x = [&a[0], &a[1], &a[2], &a[3], &a[4], &a[5]];
    assert(model::ref_values(x@) =~= model::values(a@));
    if k == 2 || k == 4 {
        alternating(x)
    } else {
        plain(x)
    }
}

/// The right factors of coefficient `k`.
fn right_factors<'a>(
    b: &'a [Natural; 6],
    aux: &'a [Natural; 4],
    k: usize,
    m: Ghost<nat>,
) -> (r: [(i8, &'a Natural); 6])
    requires
        is_aux(m@, model::values(b@), model::values(aux@)),
    ensures
        model::signed_values(r@) == model::fp6_mul_right(m@, model::values(b@), k as int),
{
    let ghost bv = model::values(b@);
    let (b00, b01, b10, b11, b20, b21) = (&b[0], &b[1], &b[2], &b[3], &b[4], &b[5]);
    let (b10_p_b11, b10_m_b11, b20_p_b21, b20_m_b21) = (&aux[0], &aux[1], &aux[2], &aux[3]);
    let ghost (p1, m1, p2, m2) = (b10_p_b11@, b10_m_b11@, b20_p_b21@, b20_m_b21@);
    proof {
        let auxv = model::values(aux@);
        assert(auxv[0] == p1 && auxv[1] == m1 && auxv[2] == p2 && auxv[3] == m2);
        reveal(is_aux);
    }
    if k == 0 {
        let x = [b00, b01, b20_m_b21, b20_p_b21, b10_m_b11, b10_p_b11];
        assert(model::ref_values(x@) =~= seq![bv[0], bv[1], m2, p2, m1, p1]);
        alternating(x)
    } else if k == 1 {
        let x = [b01, b00, b20_p_b21, b20_m_b21, b10_p_b11, b10_m_b11];
        assert(model::ref_values(x@) =~= seq![bv[1], bv[0], p2, m2, p1, m1]);
        plain(x)
    } else if k == 2 {
        let x = [b10, b11, b00, b01, b20_m_b21, b20_p_b21];
        assert(model::ref_values(x@) =~= seq![bv[2], bv[3], bv[0], bv[1], m2, p2]);
        plain(x)
    } else if k == 3 {
        let x = [b11, b10, b01, b00, b20_p_b21, b20_m_b21];
        assert(model::ref_values(x@) =~= seq![bv[3], bv[2], bv[1], bv[0], p2, m2]);
        plain(x)
    } else if k == 4 {
        let x = [b20, b21, b10, b11, b00, b01];
        assert(model::ref_values(x@) =~= seq![bv[4], bv[5], bv[2], bv[3], bv[0], bv[1]]);
        plain(x)
    } else {
        let x = [b21, b20, b11, b10, b01, b00];
        assert(model::ref_values(x@) =~= seq![bv[5], bv[4], bv[3], bv[2], bv[1], bv[0]]);
        plain(x)
    }
}

/// Whether the columns of the product of `a` and `b` were laid out group by group.
spec fn groups_laid_out(
    c: Context,
    after: Fp6MulCols<Natural>,
    a: Seq<nat>,
    b: Seq<nat>,
) -> bool {
    &&& aux_view(after.aux) == aux_cols(c, b)
    &&& coefficient_view(after.c00) == coefficient_cols(c, a, b, 0)
    &&& coefficient_view(after.c01) == coefficient_cols(c, a, b, 1)
    &&& coefficient_view(after.c10) == coefficient_cols(c, a, b, 2)
    &&& coefficient_view(after.c11) == coefficient_cols(c, a, b, 3)
    &&& coefficient_view(after.c20) == coefficient_cols(c, a, b, 4)
    &&& coefficient_view(after.c21) == coefficient_cols(c, a, b, 5)
}

/// The lookups of the groups of columns of a product.
spec fn group_lookups(cols: Fp6MulCols<Natural>) -> Seq<ByteLookups<nat>> {
    aux_lookups(aux_view(cols.aux)) + coefficient_lookups(coefficient_view(cols.c00))
        + coefficient_lookups(coefficient_view(cols.c01)) + coefficient_lookups(
        coefficient_view(cols.c10),
    ) + coefficient_lookups(coefficient_view(cols.c11)) + coefficient_lookups(
        coefficient_view(cols.c20),
    ) + coefficient_lookups(coefficient_view(cols.c21))
}

/// The product of `a` and `b`, its columns and its lookups, as their groups make them up.
proof fn lemma_fp6_mul(
    c: Context,
    after: Fp6MulCols<Natural>,
    a: Seq<nat>,
    b: Seq<nat>,
    r: Seq<Natural>,
)
    requires
        c.modulus > 0,
        a.len() == 6,
        b.len() == 6,
        r.len() == 6,
        forall|k: int| 0 <= k < 6 ==> (#[trigger] r[k])@ == coefficient(c.modulus, a, b, k),
        groups_laid_out(c, after, a, b),
    ensures
        model::values(r) == model::fp6_mul(c.modulus, a, b),
        after@ == model::fp6_mul_cols(c, a, b),
        group_lookups(after) == model::fp6_mul_lookups(after@),
{
    reveal(<Fp6MulCols<Natural> as View>::view);
    reveal(model::fp6_mul_cols);
    reveal(model::fp6_mul_lookups);
    reveal(coefficient_view);
    reveal(aux_view);
    reveal(coefficient);
    reveal(coefficient_cols);
    reveal(coefficient_lookups);
    reveal(aux_cols);
    reveal(aux_lookups);
    assert forall|k: int| 0 <= k < 6 implies (#[trigger] r[k])@ == model::fp6_mul(
        c.modulus,
        a,
        b,
    )[k] by {
        algebra::lemma_coefficient(c.modulus, a, b, k);
    }
    assert(model::values(r) =~= model::fp6_mul(c.modulus, a, b));
}

impl Fp12MulChipConstraints {
    /// The sums and differences of the coefficients of `b`.
    fn fp6_mul_aux(
        &mut self,
        dest: &mut SumOfProductsAuxillaryCols<Natural>,
        b: &[Natural; 6],
    ) -> (r: [Natural; 4])
        requires
            old(self).modulus@ > 0,
        ensures
            is_aux(old(self).modulus@, model::values(b@), model::values(r@)),
            aux_view(*final(dest)) == aux_cols(old(self)@.context, model::values(b@)),
            final(self)@ == old(self)@.after(aux_lookups(aux_view(*final(dest)))),
    {
        proof {
            reveal(aux_view);
            reveal(is_aux);
            reveal(aux_cols);
            reveal(aux_lookups);
        }
        let refs = [&b[0], &b[1], &b[2], &b[3], &b[4], &b[5]];
        assert(model::ref_values(refs@) =~= model::values(b@));
        self.aux_differences(dest, refs)
    }

    /// Coefficient `k` of the product of `a` and `b`.
    fn fp6_mul_coefficient(
        &mut self,
        dest: &mut SumOfProductsCols<Natural>,
        a: &[Natural; 6],
        b: &[Natural; 6],
        aux: &[Natural; 4],
        k: usize,
    ) -> (r: Natural)
        requires
            old(self).modulus@ > 0,
            is_aux(old(self).modulus@, model::values(b@), model::values(aux@)),
        ensures
            r@ == coefficient(
                old(self).modulus@,
                model::values(a@),
                model::values(b@),
                k as int,
            ),
            coefficient_view(*final(dest)) == coefficient_cols(
                old(self)@.context,
                model::values(a@),
                model::values(b@),
                k as int,
            ),
            final(self)@ == old(self)@.after(coefficient_lookups(coefficient_view(*final(dest)))),
    {
        proof {
            reveal(coefficient_view);
            reveal(coefficient);
            reveal(coefficient_cols);
            reveal(coefficient_lookups);
        }
        let left = left_factors(a, k);
        let right = right_factors(b, aux, k, Ghost(self.modulus@));
        self.sum_of_products(dest, left, right)
    }

    /// The product of sextic elements, group of columns by group of columns.
    fn fp6_mul_groups(
        &mut self,
        dest: &mut Fp6MulCols<Natural>,
        a: &[Natural; 6],
        b: &[Natural; 6],
    ) -> (r: [Natural; 6])
        requires
            old(self).modulus@ > 0,
        ensures
            groups_laid_out(
                old(self)@.context,
                *final(dest),
                model::values(a@),
                model::values(b@),
            ),
            forall|k: int|
                0 <= k < 6 ==> (#[trigger] r[k])@ == coefficient(
                    old(self).modulus@,
                    model::values(a@),
                    model::values(b@),
                    k,
                ),
            final(self)@ == old(self)@.after(group_lookups(*final(dest))),
    {
        let ghost start = self@;
        let aux = self.fp6_mul_aux(&mut dest.aux, b);
        let ghost l0 = aux_lookups(aux_view(dest.aux));
        let c00 = self.fp6_mul_coefficient(&mut dest.c00, a, b, &aux, 0);
        let ghost l1 = l0 + coefficient_lookups(coefficient_view(dest.c00));
        let c01 = self.fp6_mul_coefficient(&mut dest.c01, a, b, &aux, 1);
        let ghost l2 = l1 + coefficient_lookups(coefficient_view(dest.c01));
        let c10 = self.fp6_mul_coefficient(&mut dest.c10, a, b, &aux, 2);
        let ghost l3 = l2 + coefficient_lookups(coefficient_view(dest.c10));
        let c11 = self.fp6_mul_coefficient(&mut dest.c11, a, b, &aux, 3);
        let ghost l4 = l3 + coefficient_lookups(coefficient_view(dest.c11));
        let c20 = self.fp6_mul_coefficient(&mut dest.c20, a, b, &aux, 4);
        let ghost l5 = l4 + coefficient_lookups(coefficient_view(dest.c20));
        let c21 = self.fp6_mul_coefficient(&mut dest.c21, a, b, &aux, 5);
        proof {
            constraints::lemma_after_after(
                start,
                l0,
                coefficient_lookups(coefficient_view(dest.c00)),
            );
            constraints::lemma_after_after(
                start,
                l1,
                coefficient_lookups(coefficient_view(dest.c01)),
            );
            constraints::lemma_after_after(
                start,
                l2,
                coefficient_lookups(coefficient_view(dest.c10)),
            );
            constraints::lemma_after_after(
                start,
                l3,
                coefficient_lookups(coefficient_view(dest.c11)),
            );
            constraints::lemma_after_after(
                start,
                l4,
                coefficient_lookups(coefficient_view(dest.c20)),
            );
            constraints::lemma_after_after(
                start,
                l5,
                coefficient_lookups(coefficient_view(dest.c21)),
            );
        }
        [c00, c01, c10, c11, c20, c21]
    }

    /// The product of sextic elements, its coefficients reduced.
    pub fn fp6_mul(
        &mut self,
        dest: &mut Fp6MulCols<Natural>,
        a: &[Natural; 6],
        b: &[Natural; 6],
    ) -> (r: [Natural; 6])
        requires
            old(self).modulus@ > 0,
        ensures
            model::values(r@) == model::fp6_mul(
                old(self).modulus@,
                model::values(a@),
                model::values(b@),
            ),
            final(dest)@ == model::fp6_mul_cols(
                old(self)@.context,
                model::values(a@),
                model::values(b@),
            ),
            final(self)@ == old(self)@.after(model::fp6_mul_lookups(final(dest)@)),
    {
        let ghost c = self@.context;
        let ghost av = model::values(a@);
        let ghost bv = model::values(b@);
        let r = self.fp6_mul_groups(dest, a, b);
        proof {
            lemma_fp6_mul(c, *dest, av, bv, r@);
        }
        r
    }
}

} // verus!
