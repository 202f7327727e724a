//! What holds of the results of the operations as a whole.
use vstd::prelude::*;

use crate::algebra;
use crate::model;

verus! {

/// Every result of an operation modulo `m` is below `m`.
pub proof fn law_reduced(m: nat, a: nat, b: nat)
    requires
        m > 0,
    ensures
        model::mul_mod(m, a, b) < m,
        model::add_mod(m, a, b) < m,
        model::sub_mod(m, a, b) < m,
{
}

/// Products and sums modulo `m` do not depend on the order of their operands.
pub proof fn law_commutative(m: nat, a: nat, b: nat)
    ensures
        model::mul_mod(m, a, b) == model::mul_mod(m, b, a),
        model::add_mod(m, a, b) == model::add_mod(m, b, a),
{
    assert(a * b == b * a) by (nonlinear_arith);
}

/// Adding what was taken away gives the first operand back, reduced.
pub proof fn law_add_undoes_sub(m: nat, a: nat, b: nat)
    requires
        m > 0,
    ensures
        model::add_mod(m, model::sub_mod(m, a, b), b) == a % m,
{
    algebra::lemma_residue(m, a - b);
    algebra::lemma_add(m, model::sub_mod(m, a, b) as int, a - b, b as int, b as int);
}

/// Taking away what was added gives the first operand back, reduced.
pub proof fn law_sub_undoes_add(m: nat, a: nat, b: nat)
    requires
        m > 0,
    ensures
        model::sub_mod(m, model::add_mod(m, a, b), b) == a % m,
{
    let sum = (a + b) as int;
    algebra::lemma_residue(m, sum);
    algebra::lemma_sub(m, model::add_mod(m, a, b) as int, sum, b as int, b as int);
}

/// Products modulo `m` do not change when an operand is reduced first.
pub proof fn law_mul_of_reduced(m: nat, a: nat, b: nat)
    requires
        m > 0,
    ensures
        model::mul_mod(m, a % m, b) == model::mul_mod(m, a, b),
        model::mul_mod(m, a, b % m) == model::mul_mod(m, a, b),
{
    algebra::lemma_residue(m, a as int);
    algebra::lemma_residue(m, b as int);
    algebra::lemma_mul(m, (a % m) as int, a as int, b as int, b as int);
    algebra::lemma_mul(m, a as int, a as int, (b % m) as int, b as int);
}

/// The product of the factors at `i`, times the product of their signs.
pub open spec fn weighted_product(a: Seq<(i8, nat)>, b: Seq<(i8, nat)>, i: int) -> int {
    (a[i].0 * b[i].0) * (a[i].1 * b[i].1)
}

/// A sum of products counts each of the six products once, with the product of the signs of its
/// factors, where all signs are 1 or -1 and those of the first product agree. It is reduced.
pub proof fn law_sum_of_products(m: nat, a: Seq<(i8, nat)>, b: Seq<(i8, nat)>)
    requires
        m > 0,
        forall|i: int| 0 <= i < 6 ==> (#[trigger] a[i]).0 == 1 || a[i].0 == -1,
        forall|i: int| 0 <= i < 6 ==> (#[trigger] b[i]).0 == 1 || b[i].0 == -1,
        a[0].0 == b[0].0,
    ensures
        model::sum_of_products(m, a, b) == model::residue(
            m,
            weighted_product(a, b, 0) + weighted_product(a, b, 1) + weighted_product(a, b, 2)
                + weighted_product(a, b, 3) + weighted_product(a, b, 4) + weighted_product(a, b, 5),
        ),
        model::sum_of_products(m, a, b) < m,
{
    assert forall|i: int| 0 <= i < 6 implies model::signed_product(a, b, i) == weighted_product(
        a,
        b,
        i,
    ) by {
        let (s, t, p) = (a[i].0 as int, b[i].0 as int, (a[i].1 * b[i].1) as int);
        assert((s * t) * p == if s == t {
            p
        } else {
            -p
        }) by (nonlinear_arith)
            requires
                s == 1 || s == -1,
                t == 1 || t == -1,
        ;
    }
    algebra::lemma_sum_of_products(m, a, b);
}

/// The coefficients of `a`, each reduced modulo `m`.
pub open spec fn reduced(m: nat, a: Seq<nat>) -> Seq<nat> {
    a.map_values(|x: nat| x % m)
}

/// Every coefficient of a sum, a difference or a product of sextic elements is below the modulus.
pub proof fn law_fp6_reduced(m: nat, a: Seq<nat>, b: Seq<nat>)
    requires
        m > 0,
    ensures
        forall|i: int| 0 <= i < 6 ==> #[trigger] model::fp6_add(m, a, b)[i] < m,
        forall|i: int| 0 <= i < 6 ==> #[trigger] model::fp6_sub(m, a, b)[i] < m,
        forall|i: int| 0 <= i < 6 ==> #[trigger] model::fp6_mul(m, a, b)[i] < m,
{
}

/// The coefficientwise sum does not depend on the order of its operands.
pub proof fn law_fp6_add_commutative(m: nat, a: Seq<nat>, b: Seq<nat>)
    ensures
        model::fp6_add(m, a, b) == model::fp6_add(m, b, a),
{
    assert(model::fp6_add(m, a, b) =~= model::fp6_add(m, b, a));
}

/// Coefficientwise sums and differences undo each other: they give the first operand back,
/// reduced.
pub proof fn law_fp6_add_and_sub(m: nat, a: Seq<nat>, b: Seq<nat>)
    requires
        m > 0,
        a.len() == 6,
        b.len() == 6,
    ensures
        model::fp6_add(m, model::fp6_sub(m, a, b), b) == reduced(m, a),
        model::fp6_sub(m, model::fp6_add(m, a, b), b) == reduced(m, a),
{
    let (r, s) = (
        model::fp6_add(m, model::fp6_sub(m, a, b), b),
        model::fp6_sub(m, model::fp6_add(m, a, b), b),
    );
    assert forall|i: int| 0 <= i < 6 implies r[i] == a[i] % m && s[i] == a[i] % m by {
        law_add_undoes_sub(m, a[i], b[i]);
        law_sub_undoes_add(m, a[i], b[i]);
    }
    assert(r =~= reduced(m, a));
    assert(s =~= reduced(m, a));
}

/// The product of two elements `x0 + x1 u` and `y0 + y1 u` of the quadratic extension, in which
/// `u` squared is -1.
pub open spec fn fp2_mul(x: (int, int), y: (int, int)) -> (int, int) {
    (x.0 * y.0 - x.1 * y.1, x.0 * y.1 + x.1 * y.0)
}

/// The sum of three elements of the quadratic extension.
pub open spec fn fp2_sum(x: (int, int), y: (int, int), z: (int, int)) -> (int, int) {
    (x.0 + y.0 + z.0, x.1 + y.1 + z.1)
}

/// Coefficient `i` of a sextic element as a polynomial in `v` over the quadratic extension.
pub open spec fn fp2_part(a: Seq<nat>, i: int) -> (int, int) {
    (a[2 * i] as int, a[2 * i + 1] as int)
}

proof fn lemma_non_residue_product(x0: int, x1: int, y0: int, y1: int)
    ensures
        fp2_mul((1, 1), fp2_mul((x0, x1), (y0, y1))).0 == x0 * (y0 - y1) - x1 * (y0 + y1),
        fp2_mul((1, 1), fp2_mul((x0, x1), (y0, y1))).1 == x0 * (y0 + y1) + x1 * (y0 - y1),
{
    let (re, im) = (x0 * y0 - x1 * y1, x0 * y1 + x1 * y0);
    assert(1 * re == re && 1 * im == im);
    assert(re - im == x0 * (y0 - y1) - x1 * (y0 + y1)) by (nonlinear_arith)
        requires
            re == x0 * y0 - x1 * y1,
            im == x0 * y1 + x1 * y0,
    ;
    assert(im + re == x0 * (y0 + y1) + x1 * (y0 - y1)) by (nonlinear_arith)
        requires
            re == x0 * y0 - x1 * y1,
            im == x0 * y1 + x1 * y0,
    ;
}

/// The product of sextic elements is the product of polynomials in `v` over the quadratic
/// extension, in which `v` cubed is `1 + u`.
pub proof fn law_fp6_product(a: Seq<nat>, b: Seq<nat>)
    ensures
        ({
            let p = model::fp6_product(a, b);
            let (a0, a1, a2) = (fp2_part(a, 0), fp2_part(a, 1), fp2_part(a, 2));
            let (b0, b1, b2) = (fp2_part(b, 0), fp2_part(b, 1), fp2_part(b, 2));
            let r = (1int, 1int);
            &&& (p[0], p[1]) == fp2_sum(
                fp2_mul(a0, b0),
                fp2_mul(r, fp2_mul(a1, b2)),
                fp2_mul(r, fp2_mul(a2, b1)),
            )
            &&& (p[2], p[3]) == fp2_sum(
                fp2_mul(a0, b1),
                fp2_mul(a1, b0),
                fp2_mul(r, fp2_mul(a2, b2)),
            )
            &&& (p[4], p[5]) == fp2_sum(fp2_mul(a0, b2), fp2_mul(a1, b1), fp2_mul(a2, b0))
        }),
{
    lemma_non_residue_product(a[2] as int, a[3] as int, b[4] as int, b[5] as int);
    lemma_non_residue_product(a[4] as int, a[5] as int, b[2] as int, b[3] as int);
    lemma_non_residue_product(a[4] as int, a[5] as int, b[4] as int, b[5] as int);
}

proof fn lemma_fp2_mul_commutes(x: (int, int), y: (int, int))
    ensures
        fp2_mul(x, y) == fp2_mul(y, x),
{
    assert(x.0 * y.0 == y.0 * x.0 && x.1 * y.1 == y.1 * x.1) by (nonlinear_arith);
    assert(x.0 * y.1 == y.1 * x.0 && x.1 * y.0 == y.0 * x.1) by (nonlinear_arith);
}

/// The product of sextic elements does not depend on the order of its factors.
pub proof fn law_fp6_mul_commutative(m: nat, a: Seq<nat>, b: Seq<nat>)
    ensures
        model::fp6_product(a, b) == model::fp6_product(b, a),
        model::fp6_mul(m, a, b) == model::fp6_mul(m, b, a),
{
    law_fp6_product(a, b);
    law_fp6_product(b, a);
    lemma_fp2_mul_commutes(fp2_part(a, 0), fp2_part(b, 0));
    lemma_fp2_mul_commutes(fp2_part(a, 0), fp2_part(b, 1));
    lemma_fp2_mul_commutes(fp2_part(a, 0), fp2_part(b, 2));
    lemma_fp2_mul_commutes(fp2_part(a, 1), fp2_part(b, 0));
    lemma_fp2_mul_commutes(fp2_part(a, 1), fp2_part(b, 1));
    lemma_fp2_mul_commutes(fp2_part(a, 1), fp2_part(b, 2));
    lemma_fp2_mul_commutes(fp2_part(a, 2), fp2_part(b, 0));
    lemma_fp2_mul_commutes(fp2_part(a, 2), fp2_part(b, 1));
    lemma_fp2_mul_commutes(fp2_part(a, 2), fp2_part(b, 2));
    assert(model::fp6_product(a, b) =~= model::fp6_product(b, a));
}

/// A product of sextic elements does not change when a factor is reduced first.
pub proof fn law_fp6_mul_of_reduced(m: nat, a: Seq<nat>, b: Seq<nat>)
    requires
        m > 0,
        a.len() == 6,
        b.len() == 6,
    ensures
        model::fp6_mul(m, reduced(m, a), b) == model::fp6_mul(m, a, b),
        model::fp6_mul(m, a, reduced(m, b)) == model::fp6_mul(m, a, b),
{
    let (ra, rb) = (reduced(m, a), reduced(m, b));
    assert forall|i: int| 0 <= i < 6 implies algebra::congruent(
        m,
        #[trigger] ra[i] as int,
        a[i] as int,
    ) by {
        algebra::lemma_residue(m, a[i] as int);
    }
    assert forall|i: int| 0 <= i < 6 implies algebra::congruent(
        m,
        #[trigger] rb[i] as int,
        b[i] as int,
    ) by {
        algebra::lemma_residue(m, b[i] as int);
    }
    assert forall|k: int| 0 <= k < 6 implies model::fp6_mul(m, ra, b)[k] == model::fp6_mul(
        m,
        a,
        b,
    )[k] && model::fp6_mul(m, a, rb)[k] == model::fp6_mul(m, a, b)[k] by {
        algebra::lemma_product_congruent(m, ra, a, b, b, k);
        algebra::lemma_product_congruent(m, a, a, rb, b, k);
    }
    assert(model::fp6_mul(m, ra, b) =~= model::fp6_mul(m, a, b));
    assert(model::fp6_mul(m, a, rb) =~= model::fp6_mul(m, a, b));
}

/// The element all of whose `n` coefficients are zero.
pub open spec fn zeros(n: nat) -> Seq<nat> {
    Seq::new(n, |i: int| 0nat)
}

/// The product of sextic elements distributes over their sum.
pub proof fn law_fp6_mul_distributes(m: nat, a: Seq<nat>, b: Seq<nat>, c: Seq<nat>)
    requires
        m > 0,
        a.len() == 6,
        b.len() == 6,
        c.len() == 6,
    ensures
        model::fp6_mul(m, model::fp6_add(m, a, b), c) == model::fp6_add(
            m,
            model::fp6_mul(m, a, c),
            model::fp6_mul(m, b, c),
        ),
{
    let s = model::fp6_add(m, a, b);
    let z = zeros(6);
    assert forall|i: int| 0 <= i < 6 implies algebra::congruent(
        m,
        #[trigger] s[i] as int,
        algebra::sum(a, b)[i] as int,
    ) by {
        algebra::lemma_residue(m, (a[i] + b[i]) as int);
    }
    assert(algebra::sum(c, z) =~= c);
    let r = model::fp6_add(m, model::fp6_mul(m, a, c), model::fp6_mul(m, b, c));
    assert forall|k: int| 0 <= k < 6 implies model::fp6_mul(m, s, c)[k] == r[k] by {
        let (p, q) = (model::fp6_product(a, c)[k], model::fp6_product(b, c)[k]);
        algebra::lemma_product_congruent(m, s, algebra::sum(a, b), c, c, k);
        algebra::lemma_product_of_sums(a, b, c, z, k);
        lemma_product_with_constant(a, z, k);
        lemma_product_with_constant(b, z, k);
        algebra::lemma_residue(m, p);
        algebra::lemma_residue(m, q);
        algebra::lemma_add(m, model::residue(m, p) as int, p, model::residue(m, q) as int, q);
    }
    assert(model::fp6_mul(m, s, c) =~= r);
}

/// One, as a sextic element.
pub open spec fn fp6_one() -> Seq<nat> {
    seq![1, 0, 0, 0, 0, 0]
}

/// The element `v` of the sextic extension.
pub open spec fn fp6_non_residue() -> Seq<nat> {
    seq![0, 0, 1, 0, 0, 0]
}

proof fn lemma_times(x: int, y: int)
    ensures
        x == 0 ==> x * y == 0,
        y == 0 ==> x * y == 0,
        x == 1 ==> x * y == y,
        y == 1 ==> x * y == x,
{
}

proof fn lemma_product_with_constant(a: Seq<nat>, b: Seq<nat>, k: int)
    requires
        a.len() == 6,
        0 <= k < 6,
    ensures
        b == fp6_one() ==> model::fp6_product(a, b)[k] == a[k],
        b == zeros(6) ==> model::fp6_product(a, b)[k] == 0,
        a == fp6_non_residue() ==> model::fp6_product(a, b)[k] == algebra::right(b, k)[2],
{
    let (x, y) = (algebra::ints(a), algebra::right(b, k));
    lemma_times(x[0], y[0]);
    lemma_times(x[1], y[1]);
    lemma_times(x[2], y[2]);
    lemma_times(x[3], y[3]);
    lemma_times(x[4], y[4]);
    lemma_times(x[5], y[5]);
    algebra::lemma_fp6_product(a, b, k);
}

/// A product of a sextic element with one is the element, reduced.
pub proof fn law_fp6_mul_one(m: nat, a: Seq<nat>)
    requires
        m > 0,
        a.len() == 6,
    ensures
        model::fp6_mul(m, a, fp6_one()) == reduced(m, a),
        model::fp6_mul(m, fp6_one(), a) == reduced(m, a),
{
    assert forall|k: int| 0 <= k < 6 implies model::fp6_mul(m, a, fp6_one())[k] == a[k] % m by {
        lemma_product_with_constant(a, fp6_one(), k);
    }
    assert(model::fp6_mul(m, a, fp6_one()) =~= reduced(m, a));
    law_fp6_mul_commutative(m, a, fp6_one());
}

/// A product of sextic elements one of which is zero is zero.
pub proof fn law_fp6_mul_zero(m: nat, a: Seq<nat>)
    requires
        m > 0,
        a.len() == 6,
    ensures
        model::fp6_mul(m, a, zeros(6)) == zeros(6),
        model::fp6_mul(m, zeros(6), a) == zeros(6),
{
    vstd::arithmetic::div_mod::lemma_small_mod(0, m);
    assert forall|k: int| 0 <= k < 6 implies model::fp6_mul(m, a, zeros(6))[k] == 0 by {
        lemma_product_with_constant(a, zeros(6), k);
    }
    assert(model::fp6_mul(m, a, zeros(6)) =~= zeros(6));
    law_fp6_mul_commutative(m, a, zeros(6));
}

/// The product with the non-residue is the product with `v`, reduced.
pub proof fn law_non_residue(m: nat, a: Seq<nat>)
    requires
        m > 0,
        a.len() == 6,
    ensures
        reduced(m, model::fp6_mul_by_non_residue(m, a)) == model::fp6_mul(
            m,
            fp6_non_residue(),
            a,
        ),
{
    lemma_product_with_constant(fp6_non_residue(), a, 0);
    lemma_product_with_constant(fp6_non_residue(), a, 1);
    lemma_product_with_constant(fp6_non_residue(), a, 2);
    lemma_product_with_constant(fp6_non_residue(), a, 3);
    lemma_product_with_constant(fp6_non_residue(), a, 4);
    lemma_product_with_constant(fp6_non_residue(), a, 5);
    algebra::lemma_residue(m, a[4] - a[5]);
    algebra::lemma_residue(m, (a[4] + a[5]) as int);
    assert(reduced(m, model::fp6_mul_by_non_residue(m, a)) =~= model::fp6_mul(
        m,
        fp6_non_residue(),
        a,
    ));
}

/// The sums and differences that a product of sextic elements uses are the second and the third
/// coefficient of `b` in the quadratic extension, times `1 + u`.
pub proof fn law_sum_of_products_aux(m: nat, b: Seq<nat>)
    ensures
        ({
            let r = model::sum_of_products_aux(m, b);
            let second = fp2_mul((1, 1), fp2_part(b, 1));
            let third = fp2_mul((1, 1), fp2_part(b, 2));
            &&& r[1] == model::residue(m, second.0)
            &&& r[0] == model::residue(m, second.1)
            &&& r[3] == model::residue(m, third.0)
            &&& r[2] == model::residue(m, third.1)
        }),
{
    assert(1 * b[2] == b[2] && 1 * b[3] == b[3] && 1 * b[4] == b[4] && 1 * b[5] == b[5]);
}

/// The lower half of a product in the twelfth degree extension is the product of the upper halves
/// times the non-residue, plus the product of the lower halves.
pub proof fn law_fp12_mul_lower(m: nat, a: Seq<nat>, b: Seq<nat>)
    requires
        m > 0,
        a.len() == 12,
        b.len() == 12,
    ensures
        ({
            let aa = model::fp6_mul(m, model::lower(a), model::lower(b));
            let bb = model::fp6_mul(m, model::upper(a), model::upper(b));
            model::lower(model::fp12_mul(m, a, b)) == model::fp6_add(
                m,
                model::fp6_mul_by_non_residue(m, bb),
                aa,
            )
        }),
{
    algebra::lemma_fp12_steps(m, a, b);
    let s = model::fp12_steps(m, a, b);
    assert(model::lower(s.x + s.y) =~= s.x);
}

/// The upper half of a product in the twelfth degree extension is the product of the sums of the
/// halves, less the products of the lower and of the upper halves.
pub proof fn law_fp12_mul_upper(m: nat, a: Seq<nat>, b: Seq<nat>)
    requires
        m > 0,
        a.len() == 12,
        b.len() == 12,
    ensures
        ({
            let aa = model::fp6_mul(m, model::lower(a), model::lower(b));
            let bb = model::fp6_mul(m, model::upper(a), model::upper(b));
            let y1 = model::fp6_add(m, model::upper(a), model::lower(a));
            let o = model::fp6_add(m, model::lower(b), model::upper(b));
            model::upper(model::fp12_mul(m, a, b)) == model::fp6_sub(
                m,
                model::fp6_sub(m, model::fp6_mul(m, y1, o), aa),
                bb,
            )
        }),
{
    algebra::lemma_fp12_steps(m, a, b);
    let s = model::fp12_steps(m, a, b);
    assert(model::upper(s.x + s.y) =~= s.y);
}

/// The upper half of a product in the twelfth degree extension is the sum of the products of the
/// lower half of one factor with the upper half of the other.
pub proof fn law_fp12_mul_cross_terms(m: nat, a: Seq<nat>, b: Seq<nat>)
    requires
        m > 0,
    ensures
        model::upper(model::fp12_mul(m, a, b)) == model::fp6_add(
            m,
            model::fp6_mul(m, model::lower(a), model::upper(b)),
            model::fp6_mul(m, model::upper(a), model::lower(b)),
        ),
{
    let (p, q) = (
        model::fp6_product(model::lower(a), model::upper(b)),
        model::fp6_product(model::upper(a), model::lower(b)),
    );
    let y = model::upper(model::fp12_mul(m, a, b));
    let r = model::fp6_add(
        m,
        model::fp6_mul(m, model::lower(a), model::upper(b)),
        model::fp6_mul(m, model::upper(a), model::lower(b)),
    );
    assert forall|k: int| 0 <= k < 6 implies y[k] == r[k] by {
        assert(model::fp12_product(a, b)[6 + k] == p[k] + q[k]);
        algebra::lemma_residue(m, p[k]);
        algebra::lemma_residue(m, q[k]);
        algebra::lemma_add(
            m,
            model::residue(m, p[k]) as int,
            p[k],
            model::residue(m, q[k]) as int,
            q[k],
        );
    }
    assert(y =~= r);
}

/// A product in the twelfth degree extension has twelve coefficients, all below the modulus.
pub proof fn law_fp12_mul_reduced(m: nat, a: Seq<nat>, b: Seq<nat>)
    requires
        m > 0,
    ensures
        model::fp12_mul(m, a, b).len() == 12,
        forall|i: int| 0 <= i < 12 ==> #[trigger] model::fp12_mul(m, a, b)[i] < m,
{
}

/// A product in the twelfth degree extension does not depend on the order of its factors.
pub proof fn law_fp12_mul_commutative(m: nat, a: Seq<nat>, b: Seq<nat>)
    ensures
        model::fp12_mul(m, a, b) == model::fp12_mul(m, b, a),
{
    law_fp6_mul_commutative(m, model::lower(a), model::lower(b));
    law_fp6_mul_commutative(m, model::upper(a), model::upper(b));
    law_fp6_mul_commutative(m, model::lower(a), model::upper(b));
    law_fp6_mul_commutative(m, model::upper(a), model::lower(b));
    assert(model::fp12_product(a, b) =~= model::fp12_product(b, a));
}

/// One, as an element of the twelfth degree extension.
pub open spec fn fp12_one() -> Seq<nat> {
    fp6_one() + zeros(6)
}

proof fn lemma_fp12_product_with_constant(a: Seq<nat>, k: int)
    requires
        a.len() == 12,
        0 <= k < 12,
    ensures
        model::fp12_product(a, fp12_one())[k] == a[k],
        model::fp12_product(a, zeros(12))[k] == 0,
{
    let (a0, a1) = (model::lower(a), model::upper(a));
    let (one, zero) = (fp6_one(), zeros(6));
    assert(model::lower(fp12_one()) =~= one);
    assert(model::upper(fp12_one()) =~= zero);
    assert(model::lower(zeros(12)) =~= zero);
    assert(model::upper(zeros(12)) =~= zero);
    assert forall|i: int| 0 <= i < 6 implies #[trigger] model::fp6_product(a0, one)[i] == a[i] by {
        lemma_product_with_constant(a0, one, i);
    }
    assert forall|i: int| 0 <= i < 6 implies #[trigger] model::fp6_product(a1, one)[i] == a[6
        + i] by {
        lemma_product_with_constant(a1, one, i);
    }
    assert forall|i: int| 0 <= i < 6 implies #[trigger] model::fp6_product(a0, zero)[i] == 0 by {
        lemma_product_with_constant(a0, zero, i);
    }
    assert forall|i: int| 0 <= i < 6 implies #[trigger] model::fp6_product(a1, zero)[i] == 0 by {
        lemma_product_with_constant(a1, zero, i);
    }
}

/// A product in the twelfth degree extension with one is the other factor, reduced.
pub proof fn law_fp12_mul_one(m: nat, a: Seq<nat>)
    requires
        m > 0,
        a.len() == 12,
    ensures
        model::fp12_mul(m, a, fp12_one()) == reduced(m, a),
        model::fp12_mul(m, fp12_one(), a) == reduced(m, a),
{
    let r = model::fp12_mul(m, a, fp12_one());
    assert forall|k: int| 0 <= k < 12 implies r[k] == a[k] % m by {
        lemma_fp12_product_with_constant(a, k);
    }
    assert(r =~= reduced(m, a));
    law_fp12_mul_commutative(m, a, fp12_one());
}

/// A product in the twelfth degree extension with zero is zero.
pub proof fn law_fp12_mul_zero(m: nat, a: Seq<nat>)
    requires
        m > 0,
        a.len() == 12,
    ensures
        model::fp12_mul(m, a, zeros(12)) == zeros(12),
        model::fp12_mul(m, zeros(12), a) == zeros(12),
{
    let r = model::fp12_mul(m, a, zeros(12));
    vstd::arithmetic::div_mod::lemma_small_mod(0, m);
    assert forall|k: int| 0 <= k < 12 implies r[k] == 0 by {
        lemma_fp12_product_with_constant(a, k);
    }
    assert(r =~= zeros(12));
    law_fp12_mul_commutative(m, a, zeros(12));
}

} // verus!
