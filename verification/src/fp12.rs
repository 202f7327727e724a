//! The product of elements of the twelfth degree extension.
use vstd::prelude::*;

use crate::algebra;
use crate::columns::AuxFp12MulCols;
use crate::columns::ByteLookups;
use crate::columns::Fp6AddCols;
use crate::columns::Fp6MulByNonResidueCols;
use crate::columns::Fp6MulCols;
use crate::constraints;
use crate::constraints::Fp12MulChipConstraints;
use crate::model;
use crate::model::Context;
use crate::natural::Natural;

verus! {

// The sextic operations under names that the solver does not unfold.

#[verifier::opaque]
spec fn add_view(cols: Fp6AddCols<Natural>) -> Fp6AddCols<nat> {
    cols@
}

#[verifier::opaque]
spec fn non_residue_view(cols: Fp6MulByNonResidueCols<Natural>) -> Fp6MulByNonResidueCols<nat> {
    cols@
}

#[verifier::opaque]
spec fn mul_value(m: nat, a: Seq<nat>, b: Seq<nat>) -> Seq<nat> {
    model::fp6_mul(m, a, b)
}

#[verifier::opaque]
spec fn add_value(m: nat, a: Seq<nat>, b: Seq<nat>) -> Seq<nat> {
    model::fp6_add(m, a, b)
}

#[verifier::opaque]
spec fn sub_value(m: nat, a: Seq<nat>, b: Seq<nat>) -> Seq<nat> {
    model::fp6_sub(m, a, b)
}

#[verifier::opaque]
spec fn add_cols(c: Context, a: Seq<nat>, b: Seq<nat>) -> Fp6AddCols<nat> {
    model::fp6_add_cols(c, a, b)
}

#[verifier::opaque]
spec fn sub_cols(c: Context, a: Seq<nat>, b: Seq<nat>) -> Fp6AddCols<nat> {
    model::fp6_sub_cols(c, a, b)
}

#[verifier::opaque]
spec fn add_lookups(cols: Fp6AddCols<nat>) -> Seq<ByteLookups<nat>> {
    model::fp6_add_lookups(cols)
}

#[verifier::opaque]
spec fn non_residue_value(m: nat, a: Seq<nat>) -> Seq<nat> {
    model::fp6_mul_by_non_residue(m, a)
}

#[verifier::opaque]
spec fn non_residue_cols(c: Context, a: Seq<nat>) -> Fp6MulByNonResidueCols<nat> {
    model::fp6_mul_by_non_residue_cols(c, a)
}

#[verifier::opaque]
spec fn non_residue_lookups(cols: Fp6MulByNonResidueCols<nat>) -> Seq<ByteLookups<nat>> {
    model::fp6_mul_by_non_residue_lookups(cols)
}

// The product under names that the solver does not unfold.

#[verifier::opaque]
spec fn product_view(cols: AuxFp12MulCols<Natural>) -> AuxFp12MulCols<nat> {
    cols@
}

#[verifier::opaque]
spec fn product_value(m: nat, a: Seq<nat>, b: Seq<nat>) -> Seq<nat> {
    model::fp12_mul(m, a, b)
}

#[verifier::opaque]
spec fn product_steps(m: nat, a: Seq<nat>, b: Seq<nat>) -> model::Fp12Steps {
    model::fp12_steps(m, a, b)
}

/// The sextic elements on the way to a product, from the halves of its factors.
spec fn steps(
    m: nat,
    a0: Seq<nat>,
    a1: Seq<nat>,
    b0: Seq<nat>,
    b1: Seq<nat>,
) -> model::Fp12Steps {
    let aa = mul_value(m, a0, b0);
    let bb = mul_value(m, a1, b1);
    let o = add_value(m, b0, b1);
    let y1 = add_value(m, a1, a0);
    let y2 = mul_value(m, y1, o);
    let y3 = sub_value(m, y2, aa);
    let y = sub_value(m, y3, bb);
    let x1 = non_residue_value(m, bb);
    let x = add_value(m, x1, aa);
    model::Fp12Steps { aa, bb, o, y1, y2, y3, y, x1, x }
}

/// Whether the columns of a product were laid out group by group.
spec fn groups_laid_out(
    c: Context,
    after: AuxFp12MulCols<Natural>,
    a0: Seq<nat>,
    a1: Seq<nat>,
    b0: Seq<nat>,
    b1: Seq<nat>,
) -> bool {
    let s = steps(c.modulus, a0, a1, b0, b1);
    &&& after.aa@ == model::fp6_mul_cols(c, a0, b0)
    &&& after.bb@ == model::fp6_mul_cols(c, a1, b1)
    &&& add_view(after.o) == add_cols(c, b0, b1)
    &&& add_view(after.y1) == add_cols(c, a1, a0)
    &&& after.y2@ == model::fp6_mul_cols(c, s.y1, s.o)
    &&& add_view(after.y3) == sub_cols(c, s.y2, s.aa)
    &&& add_view(after.y) == sub_cols(c, s.y3, s.bb)
    &&& non_residue_view(after.x1) == non_residue_cols(c, s.bb)
    &&& add_view(after.x) == add_cols(c, s.x1, s.aa)
}

/// The lookups of the groups of columns of a product.
spec fn group_lookups(cols: AuxFp12MulCols<Natural>) -> Seq<ByteLookups<nat>> {
    model::fp6_mul_lookups(cols.aa@) + model::fp6_mul_lookups(cols.bb@) + add_lookups(
        add_view(cols.o),
    ) + add_lookups(add_view(cols.y1)) + model::fp6_mul_lookups(cols.y2@) + add_lookups(
        add_view(cols.y3),
    ) + add_lookups(add_view(cols.y)) + non_residue_lookups(non_residue_view(cols.x1))
        + add_lookups(add_view(cols.x))
}

/// The steps of a product are those of the model.
proof fn lemma_steps(m: nat, a: Seq<nat>, b: Seq<nat>)
    ensures
        steps(m, model::lower(a), model::upper(a), model::lower(b), model::upper(b))
            == product_steps(m, a, b),
{
    reveal(product_steps);
    reveal(mul_value);
    reveal(add_value);
    reveal(sub_value);
    reveal(non_residue_value);
}

/// The steps of a product lead to the product.
proof fn lemma_value(m: nat, a: Seq<nat>, b: Seq<nat>)
    requires
        m > 0,
        a.len() == 12,
        b.len() == 12,
    ensures
        product_value(m, a, b) == product_steps(m, a, b).x + product_steps(m, a, b).y,
{
    reveal(product_value);
    reveal(product_steps);
    algebra::lemma_fp12_steps(m, a, b);
}

/// The columns of a product, as their groups make them up.
proof fn lemma_cols(
    c: Context,
    after: AuxFp12MulCols<Natural>,
    a: Seq<nat>,
    b: Seq<nat>,
)
    requires
        groups_laid_out(
            c,
            after,
            model::lower(a),
            model::upper(a),
            model::lower(b),
            model::upper(b),
        ),
    ensures
        product_view(after) == model::fp12_mul_cols(c, a, b),
{
    lemma_steps(c.modulus, a, b);
    reveal(product_view);
    reveal(product_steps);
    reveal(model::fp12_mul_cols);
    reveal(add_view);
    reveal(non_residue_view);
    reveal(add_cols);
    reveal(sub_cols);
    reveal(non_residue_cols);
}

/// The lookups of a product, as the groups of its columns make them up.
proof fn lemma_lookups(cols: AuxFp12MulCols<Natural>)
    ensures
        group_lookups(cols) == model::fp12_mul_lookups(product_view(cols)),
{
    reveal(product_view);
    reveal(model::fp12_mul_lookups);
    reveal(add_view);
    reveal(non_residue_view);
    reveal(add_lookups);
    reveal(non_residue_lookups);
}

impl Fp12MulChipConstraints {
    /// The product of sextic elements, with its contract over the names above.
    fn step_mul(
        &mut self,
        dest: &mut Fp6MulCols<Natural>,
        a: &[Natural; 6],
        b: &[Natural; 6],
    ) -> (r: [Natural; 6])
        requires
            old(self).modulus@ > 0,
        ensures
            model::values(r@) == mul_value(
                old(self).modulus@,
                model::values(a@),
                model::values(b@),
            ),
            final(dest)@ == model::fp6_mul_cols(
                old(self)@.context,
                model::values(a@),
                model::values(b@),
            ),
            final(self)@ == old(self)@.after(model::fp6_mul_lookups(final(dest)@)),
    {
        proof {
            reveal(mul_value);
        }
        self.fp6_mul(dest, a, b)
    }

    /// The sum of sextic elements, with its contract over the names above.
    fn step_add(
        &mut self,
        dest: &mut Fp6AddCols<Natural>,
        a: &[Natural; 6],
        b: &[Natural; 6],
    ) -> (r: [Natural; 6])
        requires
            old(self).modulus@ > 0,
        ensures
            model::values(r@) == add_value(
                old(self).modulus@,
                model::values(a@),
                model::values(b@),
            ),
            add_view(*final(dest)) == add_cols(
                old(self)@.context,
                model::values(a@),
                model::values(b@),
            ),
            final(self)@ == old(self)@.after(add_lookups(add_view(*final(dest)))),
    {
        proof {
            reveal(add_view);
            reveal(add_value);
            reveal(add_cols);
            reveal(add_lookups);
        }
        self.fp6_add(dest, a, b)
    }

    /// The difference of sextic elements, with its contract over the names above.
    fn step_sub(
        &mut self,
        dest: &mut Fp6AddCols<Natural>,
        a: &[Natural; 6],
        b: &[Natural; 6],
    ) -> (r: [Natural; 6])
        requires
            old(self).modulus@ > 0,
        ensures
            model::values(r@) == sub_value(
                old(self).modulus@,
                model::values(a@),
                model::values(b@),
            ),
            add_view(*final(dest)) == sub_cols(
                old(self)@.context,
                model::values(a@),
                model::values(b@),
            ),
            final(self)@ == old(self)@.after(add_lookups(add_view(*final(dest)))),
    {
        proof {
            reveal(add_view);
            reveal(sub_value);
            reveal(sub_cols);
            reveal(add_lookups);
        }
        self.fp6_difference(dest, a, b)
    }

    /// The product with the non-residue, with its contract over the names above.
    fn step_non_residue(
        &mut self,
        dest: &mut Fp6MulByNonResidueCols<Natural>,
        a: &[Natural; 6],
    ) -> (r: [Natural; 6])
        requires
            old(self).modulus@ > 0,
        ensures
            model::values(r@) == non_residue_value(old(self).modulus@, model::values(a@)),
            non_residue_view(*final(dest)) == non_residue_cols(
                old(self)@.context,
                model::values(a@),
            ),
            final(self)@ == old(self)@.after(non_residue_lookups(non_residue_view(*final(dest)))),
    {
        proof {
            reveal(non_residue_view);
            reveal(non_residue_value);
            reveal(non_residue_cols);
            reveal(non_residue_lookups);
        }
        self.times_non_residue(dest, a)
    }

    /// The lower and the upper half of a product, group of columns by group of columns.
    fn fp12_mul_groups(
        &mut self,
        dest: &mut AuxFp12MulCols<Natural>,
        ac0: &[Natural; 6],
        ac1: &[Natural; 6],
        bc0: &[Natural; 6],
        bc1: &[Natural; 6],
    ) -> (r: ([Natural; 6], [Natural; 6]))
        requires
            old(self).modulus@ > 0,
        ensures
            model::values(r.0@) == steps(
                old(self).modulus@,
                model::values(ac0@),
                model::values(ac1@),
                model::values(bc0@),
                model::values(bc1@),
            ).x,
            model::values(r.1@) == steps(
                old(self).modulus@,
                model::values(ac0@),
                model::values(ac1@),
                model::values(bc0@),
                model::values(bc1@),
            ).y,
            groups_laid_out(
                old(self)@.context,
                *final(dest),
                model::values(ac0@),
                model::values(ac1@),
                model::values(bc0@),
                model::values(bc1@),
            ),
            final(self)@ == old(self)@.after(group_lookups(*final(dest))),
    {
        let ghost start = self@;
        let aa = self.step_mul(&mut dest.aa, ac0, bc0);
        let ghost l0 = model::fp6_mul_lookups(dest.aa@);
        let bb = self.step_mul(&mut dest.bb, ac1, bc1);
        let ghost l1 = l0 + model::fp6_mul_lookups(dest.bb@);
        let o = self.step_add(&mut dest.o, bc0, bc1);
        let ghost l2 = l1 + add_lookups(add_view(dest.o));
        let y1 = self.step_add(&mut dest.y1, ac1, ac0);
        let ghost l3 = l2 + add_lookups(add_view(dest.y1));
        let y2 = self.step_mul(&mut dest.y2, &y1, &o);
        let ghost l4 = l3 + model::fp6_mul_lookups(dest.y2@);
        let y3 = self.step_sub(&mut dest.y3, &y2, &aa);
        let ghost l5 = l4 + add_lookups(add_view(dest.y3));
        let y = self.step_sub(&mut dest.y, &y3, &bb);
        let ghost l6 = l5 + add_lookups(add_view(dest.y));
        let x1 = self.step_non_residue(&mut dest.x1, &bb);
        let ghost l7 = l6 + non_residue_lookups(non_residue_view(dest.x1));
        let x = self.step_add(&mut dest.x, &x1, &aa);
        proof {
            constraints::lemma_after_after(start, l0, model::fp6_mul_lookups(dest.bb@));
            constraints::lemma_after_after(start, l1, add_lookups(add_view(dest.o)));
            constraints::lemma_after_after(start, l2, add_lookups(add_view(dest.y1)));
            constraints::lemma_after_after(start, l3, model::fp6_mul_lookups(dest.y2@));
            constraints::lemma_after_after(start, l4, add_lookups(add_view(dest.y3)));
            constraints::lemma_after_after(start, l5, add_lookups(add_view(dest.y)));
            constraints::lemma_after_after(
                start,
                l6,
                non_residue_lookups(non_residue_view(dest.x1)),
            );
            constraints::lemma_after_after(start, l7, add_lookups(add_view(dest.x)));
        }
        (x, y)
    }

    /// The product of elements of the twelfth degree extension, with its contract over the names
    /// above.
    fn fp12_mul_halves(
        &mut self,
        dest: &mut AuxFp12MulCols<Natural>,
        a: &[Natural; 12],
        b: &[Natural; 12],
    ) -> (r: [Natural; 12])
        requires
            old(self).modulus@ > 0,
        ensures
            model::values(r@) == product_value(
                old(self).modulus@,
                model::values(a@),
                model::values(b@),
            ),
            product_view(*final(dest)) == model::fp12_mul_cols(
                old(self)@.context,
                model::values(a@),
                model::values(b@),
            ),
            final(self)@ == old(self)@.after(model::fp12_mul_lookups(product_view(*final(dest)))),
    {
        let ghost c = self@.context;
        let ghost av = model::values(a@);
        let ghost bv = model::values(b@);

        let ac0 = half(a, 0);
        let ac1 = half(a, 6);
        let bc0 = half(b, 0);
        let bc1 = half(b, 6);

        let (x, y) = self.fp12_mul_groups(dest, &ac0, &ac1, &bc0, &bc1);
        proof {
            lemma_steps(c.modulus, av, bv);
            lemma_value(c.modulus, av, bv);
            lemma_cols(c, *dest, av, bv);
            lemma_lookups(*dest);
        }

        join(&x, &y)
    }

    /// The product of elements of the twelfth degree extension, its coefficients reduced.
    pub fn fp12_mul(
        &mut self,
        dest: &mut AuxFp12MulCols<Natural>,
        a: [Natural; 12],
        b: [Natural; 12],
    ) -> (r: [Natural; 12])
        requires
            old(self).modulus@ > 0,
        ensures
            model::values(r@) == model::fp12_mul(
                old(self).modulus@,
                model::values(a@),
                model::values(b@),
            ),
            final(dest)@ == model::fp12_mul_cols(
                old(self)@.context,
                model::values(a@),
                model::values(b@),
            ),
            final(self)@ == old(self)@.after(model::fp12_mul_lookups(final(dest)@)),
    {
        proof {
            reveal(product_view);
            reveal(product_value);
        }
        self.fp12_mul_halves(dest, &a, &b)
    }
}

/// The six coefficients of `a` from the index `from` on.
fn half(a: &[Natural; 12], from: usize) -> (r: [Natural; 6])
    requires
        from <= 6,
    ensures
        model::values(r@) == model::values(a@).subrange(from as int, from + 6),
{
    let r = [
        a[from].clone(),
        a[from + 1].clone(),
        a[from + 2].clone(),
        a[from + 3].clone(),
        a[from + 4].clone(),
        a[from + 5].clone(),
    ];
    assert(model::values(r@) =~= model::values(a@).subrange(from as int, from + 6));
    r
}

/// The twelve coefficients of a lower half `x` and an upper half `y`.
fn join(x: &[Natural; 6], y: &[Natural; 6]) -> (r: [Natural; 12])
    ensures
        model::values(r@) == model::values(x@) + model::values(y@),
{
    let r = [
        x[0].clone(),
        x[1].clone(),
        x[2].clone(),
        x[3].clone(),
        x[4].clone(),
        x[5].clone(),
        y[0].clone(),
        y[1].clone(),
        y[2].clone(),
        y[3].clone(),
        y[4].clone(),
        y[5].clone(),
    ];
    assert(model::values(r@) =~= model::values(x@) + model::values(y@));
    r
}

} // verus!
