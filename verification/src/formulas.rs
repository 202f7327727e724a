//! The results of the operations, written out in their operands.
use vstd::prelude::*;

use crate::model;

verus! {

/// The results of the operations modulo `m`.
pub proof fn law_residues(m: nat, x: int, a: nat, b: nat)
    requires
        m > 0,
    ensures
        model::residue(m, x) as int == x % (m as int),
        model::mul_mod(m, a, b) == (a * b) % m,
        model::add_mod(m, a, b) == (a + b) % m,
        model::sub_mod(m, a, b) as int == (a - b) % (m as int),
{
}

/// A sum of products takes in all six products, each once: the first as it is, each other one with
/// a minus where the signs of its factors differ.
pub proof fn law_sum_of_products_written_out(m: nat, a: Seq<(i8, nat)>, b: Seq<(i8, nat)>)
    requires
        m > 0,
    ensures
        model::sum_of_products(m, a, b) as int == ((a[0].1 * b[0].1) as int + (if a[1].0 != b[1].0 {
            -(a[1].1 * b[1].1)
        } else {
            (a[1].1 * b[1].1) as int
        }) + (if a[2].0 != b[2].0 {
            -(a[2].1 * b[2].1)
        } else {
            (a[2].1 * b[2].1) as int
        }) + (if a[3].0 != b[3].0 {
            -(a[3].1 * b[3].1)
        } else {
            (a[3].1 * b[3].1) as int
        }) + (if a[4].0 != b[4].0 {
            -(a[4].1 * b[4].1)
        } else {
            (a[4].1 * b[4].1) as int
        }) + (if a[5].0 != b[5].0 {
            -(a[5].1 * b[5].1)
        } else {
            (a[5].1 * b[5].1) as int
        })) % (m as int),
{
}

/// Exchanging the two lists of factors of a sum of products, or both signs of a pair of factors,
/// changes nothing.
pub proof fn law_sum_of_products_symmetric(
    m: nat,
    a: Seq<(i8, nat)>,
    b: Seq<(i8, nat)>,
    i: int,
)
    requires
        a.len() == 6,
        b.len() == 6,
        0 <= i < 6,
    ensures
        model::sum_of_products(m, a, b) == model::sum_of_products(m, b, a),
        model::sum_of_products(
            m,
            a.update(i, (b[i].0, a[i].1)),
            b.update(i, (a[i].0, b[i].1)),
        ) == model::sum_of_products(m, a, b),
{
    assert(a[0].1 * b[0].1 == b[0].1 * a[0].1) by (nonlinear_arith);
    assert(a[1].1 * b[1].1 == b[1].1 * a[1].1) by (nonlinear_arith);
    assert(a[2].1 * b[2].1 == b[2].1 * a[2].1) by (nonlinear_arith);
    assert(a[3].1 * b[3].1 == b[3].1 * a[3].1) by (nonlinear_arith);
    assert(a[4].1 * b[4].1 == b[4].1 * a[4].1) by (nonlinear_arith);
    assert(a[5].1 * b[5].1 == b[5].1 * a[5].1) by (nonlinear_arith);
}

/// The sums and differences that a product of sextic elements uses, in their order.
pub proof fn law_sum_of_products_aux_written_out(m: nat, b: Seq<nat>)
    requires
        m > 0,
    ensures
        model::sum_of_products_aux(m, b).len() == 4,
        model::sum_of_products_aux(m, b)[0] == (b[2] + b[3]) % m,
        model::sum_of_products_aux(m, b)[1] as int == (b[2] - b[3]) % (m as int),
        model::sum_of_products_aux(m, b)[2] == (b[4] + b[5]) % m,
        model::sum_of_products_aux(m, b)[3] as int == (b[4] - b[5]) % (m as int),
{
}

/// Sums and differences of sextic elements are taken coefficient by coefficient.
pub proof fn law_fp6_add_written_out(m: nat, a: Seq<nat>, b: Seq<nat>, i: int)
    requires
        m > 0,
        0 <= i < 6,
    ensures
        model::fp6_add(m, a, b).len() == 6,
        model::fp6_add(m, a, b)[i] == (a[i] + b[i]) % m,
        model::fp6_sub(m, a, b).len() == 6,
        model::fp6_sub(m, a, b)[i] as int == (a[i] - b[i]) % (m as int),
{
}

/// The coefficients of a product of sextic elements over the integers.
pub proof fn law_fp6_product_written_out(a: Seq<nat>, b: Seq<nat>)
    ensures
        model::fp6_product(a, b).len() == 6,
        model::fp6_product(a, b)[0] == (a[0] * b[0] - a[1] * b[1] + a[2] * (b[4] - b[5])
            - a[3] * (b[4] + b[5]) + a[4] * (b[2] - b[3]) - a[5] * (b[2] + b[3])),
        model::fp6_product(a, b)[1] == (a[0] * b[1] + a[1] * b[0] + a[2] * (b[4] + b[5])
            + a[3] * (b[4] - b[5]) + a[4] * (b[2] + b[3]) + a[5] * (b[2] - b[3])),
        model::fp6_product(a, b)[2] == (a[0] * b[2] - a[1] * b[3] + a[2] * b[0] - a[3] * b[1]
            + a[4] * (b[4] - b[5]) - a[5] * (b[4] + b[5])),
        model::fp6_product(a, b)[3] == (a[0] * b[3] + a[1] * b[2] + a[2] * b[1] + a[3] * b[0]
            + a[4] * (b[4] + b[5]) + a[5] * (b[4] - b[5])),
        model::fp6_product(a, b)[4] == (a[0] * b[4] - a[1] * b[5] + a[2] * b[2] - a[3] * b[3]
            + a[4] * b[0] - a[5] * b[1]),
        model::fp6_product(a, b)[5] == (a[0] * b[5] + a[1] * b[4] + a[2] * b[3] + a[3] * b[2]
            + a[4] * b[1] + a[5] * b[0]) as int,
{
}

/// The coefficients of a product of sextic elements modulo `m`.
pub proof fn law_fp6_mul_written_out(m: nat, a: Seq<nat>, b: Seq<nat>)
    requires
        m > 0,
    ensures
        model::fp6_mul(m, a, b).len() == 6,
        model::fp6_mul(m, a, b)[0] as int == (a[0] * b[0] - a[1] * b[1] + a[2] * (b[4] - b[5])
            - a[3] * (b[4] + b[5]) + a[4] * (b[2] - b[3]) - a[5] * (b[2] + b[3])) % (m as int),
        model::fp6_mul(m, a, b)[1] as int == (a[0] * b[1] + a[1] * b[0] + a[2] * (b[4] + b[5])
            + a[3] * (b[4] - b[5]) + a[4] * (b[2] + b[3]) + a[5] * (b[2] - b[3])) % (m as int),
        model::fp6_mul(m, a, b)[2] as int == (a[0] * b[2] - a[1] * b[3] + a[2] * b[0] - a[3] * b[1]
            + a[4] * (b[4] - b[5]) - a[5] * (b[4] + b[5])) % (m as int),
        model::fp6_mul(m, a, b)[3] as int == (a[0] * b[3] + a[1] * b[2] + a[2] * b[1] + a[3] * b[0]
            + a[4] * (b[4] + b[5]) + a[5] * (b[4] - b[5])) % (m as int),
        model::fp6_mul(m, a, b)[4] as int == (a[0] * b[4] - a[1] * b[5] + a[2] * b[2] - a[3] * b[3]
            + a[4] * b[0] - a[5] * b[1]) % (m as int),
        model::fp6_mul(m, a, b)[5] as int == ((a[0] * b[5] + a[1] * b[4] + a[2] * b[3] + a[3] * b[2]
            + a[4] * b[1] + a[5] * b[0]) as int) % (m as int),
{
}

/// The coefficients of a product with the non-residue: the last two come back in front as their
/// difference and their sum, the others move up by two.
pub proof fn law_fp6_mul_by_non_residue_written_out(m: nat, a: Seq<nat>)
    requires
        m > 0,
    ensures
        model::fp6_mul_by_non_residue(m, a).len() == 6,
        model::fp6_mul_by_non_residue(m, a)[0] as int == (a[4] - a[5]) % (m as int),
        model::fp6_mul_by_non_residue(m, a)[1] == (a[4] + a[5]) % m,
        model::fp6_mul_by_non_residue(m, a)[2] == a[0],
        model::fp6_mul_by_non_residue(m, a)[3] == a[1],
        model::fp6_mul_by_non_residue(m, a)[4] == a[2],
        model::fp6_mul_by_non_residue(m, a)[5] == a[3],
{
}

/// The halves of an element are its first six and its last six coefficients.
pub proof fn law_halves(a: Seq<nat>, i: int)
    requires
        a.len() == 12,
        0 <= i < 6,
    ensures
        model::lower(a).len() == 6,
        model::lower(a)[i] == a[i],
        model::upper(a).len() == 6,
        model::upper(a)[i] == a[6 + i],
{
}

/// The coefficients of a product in the twelfth degree extension: those of the lower half take the
/// product of the upper halves times `v` and the product of the lower halves, those of the upper
/// half the products of a lower and an upper half.
pub proof fn law_fp12_mul_written_out(m: nat, a: Seq<nat>, b: Seq<nat>)
    requires
        m > 0,
    ensures
        ({
            let aa = model::fp6_product(model::lower(a), model::lower(b));
            let bb = model::fp6_product(model::upper(a), model::upper(b));
            let ab = model::fp6_product(model::lower(a), model::upper(b));
            let ba = model::fp6_product(model::upper(a), model::lower(b));
            let r = model::fp12_mul(m, a, b);
            let n = m as int;
            &&& r.len() == 12
            &&& r[0] as int == (bb[4] - bb[5] + aa[0]) % n
            &&& r[1] as int == (bb[4] + bb[5] + aa[1]) % n
            &&& r[2] as int == (bb[0] + aa[2]) % n
            &&& r[3] as int == (bb[1] + aa[3]) % n
            &&& r[4] as int == (bb[2] + aa[4]) % n
            &&& r[5] as int == (bb[3] + aa[5]) % n
            &&& r[6] as int == (ab[0] + ba[0]) % n
            &&& r[7] as int == (ab[1] + ba[1]) % n
            &&& r[8] as int == (ab[2] + ba[2]) % n
            &&& r[9] as int == (ab[3] + ba[3]) % n
            &&& r[10] as int == (ab[4] + ba[4]) % n
            &&& r[11] as int == (ab[5] + ba[5]) % n
        }),
{
}

} // verus!
