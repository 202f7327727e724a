//! The operations on elements of the sextic extension.
use vstd::prelude::*;

use crate::columns::FieldOperation;
use crate::columns::Fp6AddCols;
use crate::columns::Fp6MulByNonResidueCols;
use crate::constraints::Fp12MulChipConstraints;
use crate::model;
use crate::natural::Natural;

verus! {

impl Fp12MulChipConstraints {
    /// The coefficientwise sum of sextic elements.
    pub fn fp6_add(
        &mut self,
        dest: &mut Fp6AddCols<Natural>,
        a: &[Natural; 6],
        b: &[Natural; 6],
    ) -> (r: [Natural; 6])
        requires
            old(self).modulus@ > 0,
        ensures
            model::values(r@) == model::fp6_add(
                old(self).modulus@,
                model::values(a@),
                model::values(b@),
            ),
            final(dest)@ == model::fp6_add_cols(
                old(self)@.context,
                model::values(a@),
                model::values(b@),
            ),
            final(self)@ == old(self)@.after(model::fp6_add_lookups(final(dest)@)),
    {
        let a00_p_b00 = self.add(&mut dest.a00_p_b00, &a[0], &b[0]);
        let a01_p_b01 = self.add(&mut dest.a01_p_b01, &a[1], &b[1]);
        let a10_p_b10 = self.add(&mut dest.a10_p_b10, &a[2], &b[2]);
        let a11_p_b11 = self.add(&mut dest.a11_p_b11, &a[3], &b[3]);
        let a20_p_b20 = self.add(&mut dest.a20_p_b20, &a[4], &b[4]);
        let a21_p_b21 = self.add(&mut dest.a21_p_b21, &a[5], &b[5]);

        let r = [a00_p_b00, a01_p_b01, a10_p_b10, a11_p_b11, a20_p_b20, a21_p_b21];
        proof {
            assert(model::values(r@) =~= model::fp6_add(
                old(self).modulus@,
                model::values(a@),
                model::values(b@),
            ));
            assert(self@.lookups =~= old(self)@.lookups + model::fp6_add_lookups(dest@));
        }
        r
    }

    /// The coefficientwise difference of sextic elements, whichever coefficients are the larger
    /// ones.
    pub(crate) fn fp6_difference(
        &mut self,
        dest: &mut Fp6AddCols<Natural>,
        a: &[Natural; 6],
        b: &[Natural; 6],
    ) -> (r: [Natural; 6])
        requires
            old(self).modulus@ > 0,
        ensures
            model::values(r@) == model::fp6_sub(
                old(self).modulus@,
                model::values(a@),
                model::values(b@),
            ),
            final(dest)@ == model::fp6_sub_cols(
                old(self)@.context,
                model::values(a@),
                model::values(b@),
            ),
            final(self)@ == old(self)@.after(model::fp6_add_lookups(final(dest)@)),
    {
        let a00_m_b00 = self.difference(&mut dest.a00_p_b00, &a[0], &b[0]);
        let a01_m_b01 = self.difference(&mut dest.a01_p_b01, &a[1], &b[1]);
        let a10_m_b10 = self.difference(&mut dest.a10_p_b10, &a[2], &b[2]);
        let a11_m_b11 = self.difference(&mut dest.a11_p_b11, &a[3], &b[3]);
        let a20_m_b20 = self.difference(&mut dest.a20_p_b20, &a[4], &b[4]);
        let a21_m_b21 = self.difference(&mut dest.a21_p_b21, &a[5], &b[5]);

        let r = [a00_m_b00, a01_m_b01, a10_m_b10, a11_m_b11, a20_m_b20, a21_m_b21];
        proof {
            assert(model::values(r@) =~= model::fp6_sub(
                old(self).modulus@,
                model::values(a@),
                model::values(b@),
            ));
            assert(self@.lookups =~= old(self)@.lookups + model::fp6_add_lookups(dest@));
        }
        r
    }

    /// The coefficientwise difference of sextic elements, for coefficients of `b` at most those of
    /// `a`.
    pub fn fp6_sub(
        &mut self,
        dest: &mut Fp6AddCols<Natural>,
        a: &[Natural; 6],
        b: &[Natural; 6],
    ) -> (r: [Natural; 6])
        requires
            old(self).modulus@ > 0,
            model::fp6_sub_defined(model::values(a@), model::values(b@)),
        ensures
            model::values(r@) == model::fp6_sub(
                old(self).modulus@,
                model::values(a@),
                model::values(b@),
            ),
            final(dest)@ == model::fp6_sub_cols(
                old(self)@.context,
                model::values(a@),
                model::values(b@),
            ),
            final(self)@ == old(self)@.after(model::fp6_add_lookups(final(dest)@)),
    {
        self.fp6_difference(dest, a, b)
    }

    /// The product of a sextic element with the non-residue, whichever coefficients are the larger
    /// ones.
    pub(crate) fn times_non_residue(
        &mut self,
        dest: &mut Fp6MulByNonResidueCols<Natural>,
        a: &[Natural; 6],
    ) -> (r: [Natural; 6])
        requires
            old(self).modulus@ > 0,
        ensures
            model::values(r@) == model::fp6_mul_by_non_residue(
                old(self).modulus@,
                model::values(a@),
            ),
            final(dest)@ == model::fp6_mul_by_non_residue_cols(
                old(self)@.context,
                model::values(a@),
            ),
            final(self)@ == old(self)@.after(model::fp6_mul_by_non_residue_lookups(final(dest)@)),
    {
        let c00 = self.difference(&mut dest.c00, &a[4], &a[5]);
        let c01 = self.add(&mut dest.c01, &a[4], &a[5]);

        let zero = Natural::zero();
        self.populate_with_modulus(&mut dest.c10, &a[0], &zero, FieldOperation::Add);
        self.populate_with_modulus(&mut dest.c11, &a[1], &zero, FieldOperation::Add);
        self.populate_with_modulus(&mut dest.c20, &a[2], &zero, FieldOperation::Add);
        self.populate_with_modulus(&mut dest.c21, &a[3], &zero, FieldOperation::Add);

        let r = [c00, c01, a[0].clone(), a[1].clone(), a[2].clone(), a[3].clone()];
        proof {
            assert(model::values(r@) =~= model::fp6_mul_by_non_residue(
                old(self).modulus@,
                model::values(a@),
            ));
            assert(self@.lookups =~= old(self)@.lookups + model::fp6_mul_by_non_residue_lookups(
                dest@,
            ));
        }
        r
    }

    /// The product of a sextic element with the non-residue, for a difference that is a natural
    /// number. The columns of the four coefficients that only move hold these coefficients.
    pub fn fp6_mul_by_non_residue(
        &mut self,
        dest: &mut Fp6MulByNonResidueCols<Natural>,
        a: &[Natural; 6],
    ) -> (r: [Natural; 6])
        requires
            old(self).modulus@ > 0,
            model::fp6_mul_by_non_residue_defined(model::values(a@)),
        ensures
            model::values(r@) == model::fp6_mul_by_non_residue(
                old(self).modulus@,
                model::values(a@),
            ),
            final(dest)@ == model::fp6_mul_by_non_residue_cols(
                old(self)@.context,
                model::values(a@),
            ),
            final(dest)@.c10.holds(a[0]@ % old(self).modulus@),
            final(dest)@.c11.holds(a[1]@ % old(self).modulus@),
            final(dest)@.c20.holds(a[2]@ % old(self).modulus@),
            final(dest)@.c21.holds(a[3]@ % old(self).modulus@),
            final(self)@ == old(self)@.after(model::fp6_mul_by_non_residue_lookups(final(dest)@)),
    {
        self.times_non_residue(dest, a)
    }
}

} // verus!
