//! The operations of a product in the twelfth degree extension, each of which computes its result
//! and lays itself out in columns.
use vstd::prelude::*;

use crate::algebra;
use crate::columns;
use crate::columns::ByteLookups;
use crate::columns::FieldOpCols;
use crate::columns::FieldOperation;
use crate::columns::SumOfProductsAuxillaryCols;
use crate::columns::SumOfProductsCols;
use crate::model;
use crate::model::Context;
use crate::natural::Natural;

verus! {

/// The state of a run of operations: where their columns are laid out, the modulus, and the lookups
/// that the columns laid out so far ask for.
#[derive(Debug)]
pub struct Fp12MulChipConstraints {
    pub shard: u32,
    pub channel: u32,
    pub new_byte_lookup_events: Vec<ByteLookups<Natural>>,
    pub modulus: Natural,
}

/// A state with its numbers as `nat`.
pub struct ConstraintsState {
    pub context: Context,
    pub lookups: Seq<ByteLookups<nat>>,
}

impl ConstraintsState {
    /// The state once columns are laid out that ask for `more` lookups.
    pub open spec fn after(self, more: Seq<ByteLookups<nat>>) -> ConstraintsState {
        ConstraintsState { context: self.context, lookups: self.lookups + more }
    }
}

impl View for Fp12MulChipConstraints {
    type V = ConstraintsState;

    open spec fn view(&self) -> ConstraintsState {
        ConstraintsState {
            context: Context {
                shard: self.shard,
                channel: self.channel,
                modulus: self.modulus@,
            },
            lookups: columns::lookup_values(self.new_byte_lookup_events@),
        }
    }
}

/// Laying out two groups of columns one after the other.
pub proof fn lemma_after_after(
    s: ConstraintsState,
    x: Seq<ByteLookups<nat>>,
    y: Seq<ByteLookups<nat>>,
)
    ensures
        s.after(x).after(y) == s.after(x + y),
{
    assert(s.lookups + x + y =~= s.lookups + (x + y));
}

impl Fp12MulChipConstraints {
    /// A state in which no operation has run yet and `new_byte_lookup_events` is already asked for.
    pub fn new(
        shard: u32,
        channel: u32,
        new_byte_lookup_events: Vec<ByteLookups<Natural>>,
        modulus: Natural,
    ) -> (r: Fp12MulChipConstraints)
        ensures
            r.shard == shard,
            r.channel == channel,
            r.new_byte_lookup_events == new_byte_lookup_events,
            r.modulus == modulus,
    {
        Fp12MulChipConstraints { shard, channel, new_byte_lookup_events, modulus }
    }

    /// Lays an operation out in `dest`.
    pub fn populate_with_modulus(
        &mut self,
        dest: &mut FieldOpCols<Natural>,
        a: &Natural,
        b: &Natural,
        op: FieldOperation,
    )
        ensures
            final(dest)@.operation == Some(
                columns::FieldOp {
                    shard: old(self).shard,
                    channel: old(self).channel,
                    a: a@,
                    b: b@,
                    modulus: old(self).modulus@,
                    op,
                },
            ),
            final(self)@ == old(self)@.after(model::op_lookups(final(dest)@)),
            final(self).shard == old(self).shard,
            final(self).channel == old(self).channel,
            final(self).modulus@ == old(self).modulus@,
            final(self)@.lookups == old(self)@.lookups.push(
                ByteLookups::FieldOp(
                    columns::FieldOp {
                        shard: old(self).shard,
                        channel: old(self).channel,
                        a: a@,
                        b: b@,
                        modulus: old(self).modulus@,
                        op,
                    },
                ),
            ),
    {
        dest.populate_with_modulus(
            &mut self.new_byte_lookup_events,
            self.shard,
            self.channel,
            a,
            b,
            &self.modulus,
            op,
        );
        assert(self@.lookups =~= old(self)@.lookups + model::op_lookups(dest@));
    }

    /// The product of `a` and `b` modulo the modulus.
    pub fn mul(
        &mut self,
        dest: &mut FieldOpCols<Natural>,
        a: &Natural,
        b: &Natural,
    ) -> (r: Natural)
        requires
            old(self).modulus@ > 0,
        ensures
            r@ == model::mul_mod(old(self).modulus@, a@, b@),
            final(dest)@ == model::mul_cols(old(self)@.context, a@, b@),
            final(dest)@.holds(r@),
            final(self)@ == old(self)@.after(model::op_lookups(final(dest)@)),
            r@ == (a@ * b@) % old(self).modulus@,
            final(self).shard == old(self).shard,
            final(self).channel == old(self).channel,
            final(self).modulus@ == old(self).modulus@,
            final(self)@.lookups == old(self)@.lookups.push(
                ByteLookups::FieldOp(
                    columns::FieldOp {
                        shard: old(self).shard,
                        channel: old(self).channel,
                        a: a@,
                        b: b@,
                        modulus: old(self).modulus@,
                        op: FieldOperation::Mul,
                    },
                ),
            ),
            final(dest)@.operation == Some(
                columns::FieldOp {
                    shard: old(self).shard,
                    channel: old(self).channel,
                    a: a@,
                    b: b@,
                    modulus: old(self).modulus@,
                    op: FieldOperation::Mul,
                },
            ),
    {
        self.populate_with_modulus(dest, a, b, FieldOperation::Mul);
        a.mul(b).rem(&self.modulus)
    }

    /// The sum of `a` and `b` modulo the modulus.
    pub fn add(
        &mut self,
        dest: &mut FieldOpCols<Natural>,
        a: &Natural,
        b: &Natural,
    ) -> (r: Natural)
        requires
            old(self).modulus@ > 0,
        ensures
            r@ == model::add_mod(old(self).modulus@, a@, b@),
            final(dest)@ == model::add_cols(old(self)@.context, a@, b@),
            final(dest)@.holds(r@),
            final(self)@ == old(self)@.after(model::op_lookups(final(dest)@)),
            r@ == (a@ + b@) % old(self).modulus@,
            final(self).shard == old(self).shard,
            final(self).channel == old(self).channel,
            final(self).modulus@ == old(self).modulus@,
            final(self)@.lookups == old(self)@.lookups.push(
                ByteLookups::FieldOp(
                    columns::FieldOp {
                        shard: old(self).shard,
                        channel: old(self).channel,
                        a: a@,
                        b: b@,
                        modulus: old(self).modulus@,
                        op: FieldOperation::Add,
                    },
                ),
            ),
            final(dest)@.operation == Some(
                columns::FieldOp {
                    shard: old(self).shard,
                    channel: old(self).channel,
                    a: a@,
                    b: b@,
                    modulus: old(self).modulus@,
                    op: FieldOperation::Add,
                },
            ),
    {
        self.populate_with_modulus(dest, a, b, FieldOperation::Add);
        a.add(b).rem(&self.modulus)
    }

    /// `a` less `b` modulo the modulus, for `b` at most `a`. Products take their differences with
    /// `difference`, which has no such bound.
    pub fn sub(
        &mut self,
        dest: &mut FieldOpCols<Natural>,
        a: &Natural,
        b: &Natural,
    ) -> (r: Natural)
        requires
            old(self).modulus@ > 0,
            a@ >= b@,
        ensures
            r@ == model::sub_mod(old(self).modulus@, a@, b@),
            final(dest)@ == model::sub_cols(old(self)@.context, a@, b@),
            final(dest)@.holds(r@),
            final(self)@ == old(self)@.after(model::op_lookups(final(dest)@)),
            r@ == (a@ - b@) as nat % old(self).modulus@,
            final(self).shard == old(self).shard,
            final(self).channel == old(self).channel,
            final(self).modulus@ == old(self).modulus@,
            final(self)@.lookups == old(self)@.lookups.push(
                ByteLookups::FieldOp(
                    columns::FieldOp {
                        shard: old(self).shard,
                        channel: old(self).channel,
                        a: a@,
                        b: b@,
                        modulus: old(self).modulus@,
                        op: FieldOperation::Sub,
                    },
                ),
            ),
            final(dest)@.operation == Some(
                columns::FieldOp {
                    shard: old(self).shard,
                    channel: old(self).channel,
                    a: a@,
                    b: b@,
                    modulus: old(self).modulus@,
                    op: FieldOperation::Sub,
                },
            ),
    {
        self.populate_with_modulus(dest, a, b, FieldOperation::Sub);
        a.sub(b).rem(&self.modulus)
    }

    /// `a` less `b` modulo the modulus: what is left of `b` is taken away from `a` and the modulus.
    pub(crate) fn difference(
        &mut self,
        dest: &mut FieldOpCols<Natural>,
        a: &Natural,
        b: &Natural,
    ) -> (r: Natural)
        requires
            old(self).modulus@ > 0,
        ensures
            r@ == model::sub_mod(old(self).modulus@, a@, b@),
            final(dest)@ == model::sub_cols(old(self)@.context, a@, b@),
            final(dest)@.holds(r@),
            final(self)@ == old(self)@.after(model::op_lookups(final(dest)@)),
    {
        self.populate_with_modulus(dest, a, b, FieldOperation::Sub);
        proof {
            algebra::lemma_raised_difference(self.modulus@, a@, b@);
        }
        a.add(&self.modulus).sub(&b.rem(&self.modulus)).rem(&self.modulus)
    }

    /// The sums and differences of the coefficients of `b`, whichever are the larger ones.
    pub(crate) fn aux_differences(
        &mut self,
        dest: &mut SumOfProductsAuxillaryCols<Natural>,
        b: [&Natural; 6],
    ) -> (r: [Natural; 4])
        requires
            old(self).modulus@ > 0,
        ensures
            model::values(r@) == model::sum_of_products_aux(
                old(self).modulus@,
                model::ref_values(b@),
            ),
            final(dest)@ == model::sum_of_products_aux_cols(
                old(self)@.context,
                model::ref_values(b@),
            ),
            final(self)@ == old(self)@.after(model::sum_of_products_aux_lookups(final(dest)@)),
    {
        let b10 = b[2];
        let b11 = b[3];
        let b20 = b[4];
        let b21 = b[5];

        let b10_p_b11 = self.add(&mut dest.b10_p_b11, b10, b11);
        let b10_m_b11 = self.difference(&mut dest.b10_m_b11, b10, b11);
        let b20_p_b21 = self.add(&mut dest.b20_p_b21, b20, b21);
        let b20_m_b21 = self.difference(&mut dest.b20_m_b21, b20, b21);

        let r = [b10_p_b11, b10_m_b11, b20_p_b21, b20_m_b21];
        proof {
            assert(model::values(r@) =~= model::sum_of_products_aux(
                old(self).modulus@,
                model::ref_values(b@),
            ));
            assert(self@.lookups =~= old(self)@.lookups + model::sum_of_products_aux_lookups(
                dest@,
            ));
        }
        r
    }

    /// The sums and differences of the coefficients of `b` that a product of sextic elements uses,
    /// for differences that are natural numbers.
    pub fn sum_of_products_aux(
        &mut self,
        dest: &mut SumOfProductsAuxillaryCols<Natural>,
        b: [&Natural; 6],
    ) -> (r: [Natural; 4])
        requires
            old(self).modulus@ > 0,
            model::sum_of_products_aux_defined(model::ref_values(b@)),
        ensures
            model::values(r@) == model::sum_of_products_aux(
                old(self).modulus@,
                model::ref_values(b@),
            ),
            final(dest)@ == model::sum_of_products_aux_cols(
                old(self)@.context,
                model::ref_values(b@),
            ),
            final(self)@ == old(self)@.after(model::sum_of_products_aux_lookups(final(dest)@)),
    {
        self.aux_differences(dest, b)
    }

    /// Takes one product into a sum: adds it, or takes it away where `is_neg`.
    fn accumulate(
        &mut self,
        dest: &mut FieldOpCols<Natural>,
        is_neg: bool,
        sum: &Natural,
        cur: &Natural,
    ) -> (r: Natural)
        requires
            old(self).modulus@ > 0,
        ensures
            r@ == if is_neg {
                model::sub_mod(old(self).modulus@, sum@, cur@)
            } else {
                model::add_mod(old(self).modulus@, sum@, cur@)
            },
            final(dest)@ == if is_neg {
                model::sub_cols(old(self)@.context, sum@, cur@)
            } else {
                model::add_cols(old(self)@.context, sum@, cur@)
            },
            final(self)@ == old(self)@.after(model::op_lookups(final(dest)@)),
    {
        if is_neg {
            self.difference(dest, sum, cur)
        } else {
            self.add(dest, sum, cur)
        }
    }

    /// The sum of the products of six pairs of signed factors modulo the modulus. A product whose
    /// factors differ in sign is taken away; the first is added whatever its signs.
    pub fn sum_of_products(
        &mut self,
        dest: &mut SumOfProductsCols<Natural>,
        a: [(i8, &Natural); 6],
        b: [(i8, &Natural); 6],
    ) -> (r: Natural)
        requires
            old(self).modulus@ > 0,
        ensures
            r@ == model::sum_of_products(
                old(self).modulus@,
                model::signed_values(a@),
                model::signed_values(b@),
            ),
            r@ < old(self).modulus@,
            final(dest)@ == model::sum_of_products_cols(
                old(self)@.context,
                model::signed_values(a@),
                model::signed_values(b@),
            ),
            final(self)@ == old(self)@.after(model::sum_of_products_lookups(final(dest)@)),
    {
        let ghost m = self.modulus@;
        let ghost av = model::signed_values(a@);
        let ghost bv = model::signed_values(b@);

        let a1_t_b1 = self.mul(&mut dest.a1_t_b1, a[0].1, b[0].1);
        let a2_t_b2 = self.mul(&mut dest.a2_t_b2, a[1].1, b[1].1);
        let a3_t_b3 = self.mul(&mut dest.a3_t_b3, a[2].1, b[2].1);
        let a4_t_b4 = self.mul(&mut dest.a4_t_b4, a[3].1, b[3].1);
        let a5_t_b5 = self.mul(&mut dest.a5_t_b5, a[4].1, b[4].1);
        let a6_t_b6 = self.mul(&mut dest.a6_t_b6, a[5].1, b[5].1);

        let sum = a1_t_b1;
        assert(sum@ == model::residue(m, model::partial_sum(av, bv, 0)));
        proof {
            algebra::lemma_step(m, av, bv, 1);
        }
        let sum = self.accumulate(&mut dest.sum1, a[1].0 != b[1].0, &sum, &a2_t_b2);
        proof {
            algebra::lemma_step(m, av, bv, 2);
        }
        let sum = self.accumulate(&mut dest.sum2, a[2].0 != b[2].0, &sum, &a3_t_b3);
        proof {
            algebra::lemma_step(m, av, bv, 3);
        }
        let sum = self.accumulate(&mut dest.sum3, a[3].0 != b[3].0, &sum, &a4_t_b4);
        proof {
            algebra::lemma_step(m, av, bv, 4);
        }
        let sum = self.accumulate(&mut dest.sum4, a[4].0 != b[4].0, &sum, &a5_t_b5);
        proof {
            algebra::lemma_step(m, av, bv, 5);
        }
        let sum = self.accumulate(&mut dest.sum5, a[5].0 != b[5].0, &sum, &a6_t_b6);
        proof {
            algebra::lemma_sum_of_products(m, av, bv);
            assert(self@.lookups =~= old(self)@.lookups + model::sum_of_products_lookups(dest@));
        }
        sum
    }
}

} // verus!
