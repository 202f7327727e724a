//! Arithmetic modulo a number, as the operations on coefficients use it.
use vstd::prelude::*;

use crate::model;

verus! {

/// Whether `x` and `y` differ by a multiple of `m`.
pub open spec fn congruent(m: nat, x: int, y: int) -> bool {
    x % (m as int) == y % (m as int)
}

/// A number is congruent to what it leaves on division.
pub proof fn lemma_residue(m: nat, x: int)
    requires
        m > 0,
    ensures
        congruent(m, model::residue(m, x) as int, x),
        model::residue(m, x) < m,
{
    vstd::arithmetic::div_mod::lemma_mod_twice(x, m as int);
}

/// Sums of congruent numbers are congruent.
pub proof fn lemma_add(m: nat, x: int, x1: int, y: int, y1: int)
    requires
        m > 0,
        congruent(m, x, x1),
        congruent(m, y, y1),
    ensures
        congruent(m, x + y, x1 + y1),
{
    vstd::arithmetic::div_mod::lemma_add_mod_noop(x, y, m as int);
    vstd::arithmetic::div_mod::lemma_add_mod_noop(x1, y1, m as int);
}

/// Differences of congruent numbers are congruent.
pub proof fn lemma_sub(m: nat, x: int, x1: int, y: int, y1: int)
    requires
        m > 0,
        congruent(m, x, x1),
        congruent(m, y, y1),
    ensures
        congruent(m, x - y, x1 - y1),
{
    vstd::arithmetic::div_mod::lemma_sub_mod_noop(x, y, m as int);
    vstd::arithmetic::div_mod::lemma_sub_mod_noop(x1, y1, m as int);
}

/// Products of congruent numbers are congruent.
pub proof fn lemma_mul(m: nat, x: int, x1: int, y: int, y1: int)
    requires
        m > 0,
        congruent(m, x, x1),
        congruent(m, y, y1),
    ensures
        congruent(m, x * y, x1 * y1),
{
    vstd::arithmetic::div_mod::lemma_mul_mod_noop(x, y, m as int);
    vstd::arithmetic::div_mod::lemma_mul_mod_noop(x1, y1, m as int);
}

/// A difference does not change when its operands are brought into an order in which it is a
/// natural number.
pub proof fn lemma_raised_difference(m: nat, a: nat, b: nat)
    requires
        m > 0,
    ensures
        a + m >= b % m,
        ((a + m) - b % m) as nat % m == model::sub_mod(m, a, b),
{
    let (ai, bi, mi) = (a as int, b as int, m as int);
    vstd::arithmetic::div_mod::lemma_mod_add_multiples_vanish(ai, mi);
    lemma_residue(m, bi);
    lemma_sub(m, ai + mi, ai, bi % mi, bi);
}

/// Taking one product into the sum so far.
pub proof fn lemma_step(m: nat, a: Seq<(i8, nat)>, b: Seq<(i8, nat)>, k: nat)
    requires
        m > 0,
        k > 0,
    ensures
        ({
            let sum = model::residue(m, model::partial_sum(a, b, (k - 1) as nat));
            let cur = model::mul_mod(m, a[k as int].1, b[k as int].1);
            model::residue(m, model::partial_sum(a, b, k)) == if model::is_subtracted(
                a,
                b,
                k as int,
            ) {
                model::sub_mod(m, sum, cur)
            } else {
                model::add_mod(m, sum, cur)
            }
        }),
{
    let before = model::partial_sum(a, b, (k - 1) as nat);
    let product = (a[k as int].1 * b[k as int].1) as int;
    let sum = model::residue(m, before) as int;
    let cur = model::residue(m, product) as int;
    lemma_residue(m, before);
    lemma_residue(m, product);
    lemma_sub(m, sum, before, cur, product);
    lemma_add(m, sum, before, cur, product);
}

/// The sum of all six products.
pub proof fn lemma_sum_of_products(m: nat, a: Seq<(i8, nat)>, b: Seq<(i8, nat)>)
    requires
        m > 0,
    ensures
        model::sum_of_products(m, a, b) == model::residue(m, model::partial_sum(a, b, 5)),
        model::sum_of_products(m, a, b) < m,
{
    reveal_with_fuel(model::partial_sum, 6);
    lemma_residue(m, model::partial_sum(a, b, 5));
}

/// The sum of the products of six pairs of integers, in which every second product is taken away
/// where `signs` alternate.
pub open spec fn dot(signs: bool, x: Seq<int>, y: Seq<int>) -> int {
    let odd = x[1] * y[1] + x[3] * y[3] + x[5] * y[5];
    x[0] * y[0] + x[2] * y[2] + x[4] * y[4] + if signs {
        -odd
    } else {
        odd
    }
}

/// The coefficients as integers.
pub open spec fn ints(a: Seq<nat>) -> Seq<int> {
    a.map_values(|x: nat| x as int)
}

/// The right factors of coefficient `k` of a product of sextic elements over the integers.
pub open spec fn right(b: Seq<nat>, k: int) -> Seq<int> {
    let (b00, b01, b10) = (b[0] as int, b[1] as int, b[2] as int);
    let (b11, b20, b21) = (b[3] as int, b[4] as int, b[5] as int);
    if k == 0 {
        seq![b00, b01, b20 - b21, b20 + b21, b10 - b11, b10 + b11]
    } else if k == 1 {
        seq![b01, b00, b20 + b21, b20 - b21, b10 + b11, b10 - b11]
    } else if k == 2 {
        seq![b10, b11, b00, b01, b20 - b21, b20 + b21]
    } else if k == 3 {
        seq![b11, b10, b01, b00, b20 + b21, b20 - b21]
    } else if k == 4 {
        seq![b20, b21, b10, b11, b00, b01]
    } else {
        seq![b21, b20, b11, b10, b01, b00]
    }
}

/// A coefficient of a product of sextic elements is a sum of six products.
pub proof fn lemma_fp6_product(a: Seq<nat>, b: Seq<nat>, k: int)
    requires
        a.len() == 6,
        0 <= k < 6,
    ensures
        model::fp6_product(a, b)[k] == dot(k % 2 == 0, ints(a), right(b, k)),
{
}

/// Sums of products of congruent numbers are congruent.
pub proof fn lemma_dot(
    m: nat,
    signs: bool,
    x: Seq<int>,
    x1: Seq<int>,
    y: Seq<int>,
    y1: Seq<int>,
)
    requires
        m > 0,
        forall|i: int| 0 <= i < 6 ==> congruent(m, #[trigger] x[i], x1[i]),
        forall|i: int| 0 <= i < 6 ==> congruent(m, #[trigger] y[i], y1[i]),
    ensures
        congruent(m, dot(signs, x, y), dot(signs, x1, y1)),
{
    lemma_mul(m, x[0], x1[0], y[0], y1[0]);
    lemma_mul(m, x[1], x1[1], y[1], y1[1]);
    lemma_mul(m, x[2], x1[2], y[2], y1[2]);
    lemma_mul(m, x[3], x1[3], y[3], y1[3]);
    lemma_mul(m, x[4], x1[4], y[4], y1[4]);
    lemma_mul(m, x[5], x1[5], y[5], y1[5]);
    let (p, p1) = (x[0] * y[0] + x[2] * y[2], x1[0] * y1[0] + x1[2] * y1[2]);
    lemma_add(m, x[0] * y[0], x1[0] * y1[0], x[2] * y[2], x1[2] * y1[2]);
    lemma_add(m, p, p1, x[4] * y[4], x1[4] * y1[4]);
    let (q, q1) = (x[1] * y[1] + x[3] * y[3], x1[1] * y1[1] + x1[3] * y1[3]);
    lemma_add(m, x[1] * y[1], x1[1] * y1[1], x[3] * y[3], x1[3] * y1[3]);
    lemma_add(m, q, q1, x[5] * y[5], x1[5] * y1[5]);
    let (even, even1) = (p + x[4] * y[4], p1 + x1[4] * y1[4]);
    let (odd, odd1) = (q + x[5] * y[5], q1 + x1[5] * y1[5]);
    lemma_add(m, even, even1, odd, odd1);
    lemma_sub(m, even, even1, odd, odd1);
}

/// Coefficient `k` of a product of sextic elements is the sum of products of its factors.
pub proof fn lemma_coefficient(m: nat, a: Seq<nat>, b: Seq<nat>, k: int)
    requires
        m > 0,
        a.len() == 6,
        b.len() == 6,
        0 <= k < 6,
    ensures
        model::sum_of_products(m, model::fp6_mul_left(a, k), model::fp6_mul_right(m, b, k))
            == model::fp6_mul(m, a, b)[k],
{
    let (x, y) = (model::fp6_mul_left(a, k), model::fp6_mul_right(m, b, k));
    let yv = Seq::new(6, |i: int| y[i].1 as int);
    lemma_residue(m, (b[2] + b[3]) as int);
    lemma_residue(m, b[2] - b[3]);
    lemma_residue(m, (b[4] + b[5]) as int);
    lemma_residue(m, b[4] - b[5]);
    assert forall|i: int| 0 <= i < 6 implies congruent(m, #[trigger] yv[i], right(b, k)[i]) by {
        lemma_residue(m, right(b, k)[i]);
    }
    lemma_dot(m, k % 2 == 0, ints(a), ints(a), yv, right(b, k));
    lemma_fp6_product(a, b, k);
    assert(model::signed_product(x, y, 0) + model::signed_product(x, y, 1)
        + model::signed_product(x, y, 2) + model::signed_product(x, y, 3)
        + model::signed_product(x, y, 4) + model::signed_product(x, y, 5) == dot(
        k % 2 == 0,
        ints(a),
        yv,
    ));
}

/// A product of sextic elements with congruent coefficients has congruent coefficients.
pub proof fn lemma_product_congruent(
    m: nat,
    a: Seq<nat>,
    a1: Seq<nat>,
    b: Seq<nat>,
    b1: Seq<nat>,
    k: int,
)
    requires
        m > 0,
        a.len() == 6,
        a1.len() == 6,
        0 <= k < 6,
        forall|i: int| 0 <= i < 6 ==> congruent(m, #[trigger] a[i] as int, a1[i] as int),
        forall|i: int| 0 <= i < 6 ==> congruent(m, #[trigger] b[i] as int, b1[i] as int),
    ensures
        congruent(m, model::fp6_product(a, b)[k], model::fp6_product(a1, b1)[k]),
        model::residue(m, model::fp6_product(a, b)[k]) == model::residue(
            m,
            model::fp6_product(a1, b1)[k],
        ),
{
    let (y, y1) = (right(b, k), right(b1, k));
    lemma_add(m, b[2] as int, b1[2] as int, b[3] as int, b1[3] as int);
    lemma_sub(m, b[2] as int, b1[2] as int, b[3] as int, b1[3] as int);
    lemma_add(m, b[4] as int, b1[4] as int, b[5] as int, b1[5] as int);
    lemma_sub(m, b[4] as int, b1[4] as int, b[5] as int, b1[5] as int);
    assert(congruent(m, b[0] as int, b1[0] as int) && congruent(m, b[1] as int, b1[1] as int));
    assert forall|i: int| 0 <= i < 6 implies congruent(m, #[trigger] y[i], y1[i]) by {}
    assert forall|i: int| 0 <= i < 6 implies congruent(m, #[trigger] ints(a)[i], ints(a1)[i]) by {
        assert(congruent(m, a[i] as int, a1[i] as int));
    }
    lemma_dot(m, k % 2 == 0, ints(a), ints(a1), y, y1);
    lemma_fp6_product(a, b, k);
    lemma_fp6_product(a1, b1, k);
}

/// The coefficientwise sum, not reduced.
pub open spec fn sum(a: Seq<nat>, b: Seq<nat>) -> Seq<nat> {
    Seq::new(6, |i: int| a[i] + b[i])
}

proof fn lemma_distribute(x: int, x1: int, y: int, y1: int)
    ensures
        (x + x1) * (y + y1) == x * y + x * y1 + x1 * y + x1 * y1,
{
    assert((x + x1) * (y + y1) == x * y + x * y1 + x1 * y + x1 * y1) by (nonlinear_arith);
}

/// The product of two sums of sextic elements over the integers.
pub proof fn lemma_product_of_sums(
    a: Seq<nat>,
    a1: Seq<nat>,
    b: Seq<nat>,
    b1: Seq<nat>,
    k: int,
)
    requires
        a.len() == 6,
        a1.len() == 6,
        0 <= k < 6,
    ensures
        model::fp6_product(sum(a, a1), sum(b, b1))[k] == model::fp6_product(a, b)[k]
            + model::fp6_product(a, b1)[k] + model::fp6_product(a1, b)[k] + model::fp6_product(
            a1,
            b1,
        )[k],
{
    let (y, y1, ys) = (right(b, k), right(b1, k), right(sum(b, b1), k));
    assert(ys[0] == y[0] + y1[0] && ys[1] == y[1] + y1[1] && ys[2] == y[2] + y1[2]);
    assert(ys[3] == y[3] + y1[3] && ys[4] == y[4] + y1[4] && ys[5] == y[5] + y1[5]);
    lemma_distribute(a[0] as int, a1[0] as int, y[0], y1[0]);
    lemma_distribute(a[1] as int, a1[1] as int, y[1], y1[1]);
    lemma_distribute(a[2] as int, a1[2] as int, y[2], y1[2]);
    lemma_distribute(a[3] as int, a1[3] as int, y[3], y1[3]);
    lemma_distribute(a[4] as int, a1[4] as int, y[4], y1[4]);
    lemma_distribute(a[5] as int, a1[5] as int, y[5], y1[5]);
    lemma_fp6_product(sum(a, a1), sum(b, b1), k);
    lemma_fp6_product(a, b, k);
    lemma_fp6_product(a, b1, k);
    lemma_fp6_product(a1, b, k);
    lemma_fp6_product(a1, b1, k);
}

/// Coefficient `k` of the upper half of a product in the twelfth degree extension.
proof fn lemma_upper(m: nat, a: Seq<nat>, b: Seq<nat>, k: int)
    requires
        m > 0,
        a.len() == 12,
        b.len() == 12,
        0 <= k < 6,
    ensures
        model::fp12_steps(m, a, b).y[k] == model::fp12_mul(m, a, b)[6 + k],
{
    let s = model::fp12_steps(m, a, b);
    let (a0, a1) = (model::lower(a), model::upper(a));
    let (b0, b1) = (model::lower(b), model::upper(b));
    let (aa, bb) = (model::fp6_product(a0, b0)[k], model::fp6_product(a1, b1)[k]);
    let (ab, ba) = (model::fp6_product(a0, b1)[k], model::fp6_product(a1, b0)[k]);
    assert forall|i: int| 0 <= i < 6 implies congruent(
        m,
        #[trigger] s.y1[i] as int,
        sum(a1, a0)[i] as int,
    ) by {
        lemma_residue(m, (a1[i] + a0[i]) as int);
    }
    assert forall|i: int| 0 <= i < 6 implies congruent(
        m,
        #[trigger] s.o[i] as int,
        sum(b0, b1)[i] as int,
    ) by {
        lemma_residue(m, (b0[i] + b1[i]) as int);
    }
    let y2 = model::fp6_product(s.y1, s.o)[k];
    lemma_product_congruent(m, s.y1, sum(a1, a0), s.o, sum(b0, b1), k);
    lemma_product_of_sums(a1, a0, b0, b1, k);
    assert(congruent(m, y2, ba + bb + aa + ab));
    lemma_residue(m, y2);
    lemma_residue(m, aa);
    lemma_residue(m, bb);
    assert(s.y2[k] == model::residue(m, y2));
    assert(s.aa[k] == model::residue(m, aa));
    assert(s.bb[k] == model::residue(m, bb));
    lemma_sub(m, s.y2[k] as int, ba + bb + aa + ab, s.aa[k] as int, aa);
    lemma_residue(m, s.y2[k] - s.aa[k]);
    assert(s.y3[k] == model::residue(m, s.y2[k] - s.aa[k]));
    lemma_sub(m, s.y3[k] as int, ba + bb + ab, s.bb[k] as int, bb);
    assert(s.y[k] == model::residue(m, s.y3[k] - s.bb[k]));
    assert(model::fp12_product(a, b)[6 + k] == ab + ba);
}

/// Coefficient `k` of the lower half of a product in the twelfth degree extension.
proof fn lemma_lower(m: nat, a: Seq<nat>, b: Seq<nat>, k: int)
    requires
        m > 0,
        a.len() == 12,
        b.len() == 12,
        0 <= k < 6,
    ensures
        model::fp12_steps(m, a, b).x[k] == model::fp12_mul(m, a, b)[k],
{
    let s = model::fp12_steps(m, a, b);
    let aa = model::fp6_product(model::lower(a), model::lower(b));
    let bb = model::fp6_product(model::upper(a), model::upper(b));
    let moved = seq![bb[4] - bb[5], bb[4] + bb[5], bb[0], bb[1], bb[2], bb[3]];
    assert forall|i: int| 0 <= i < 6 implies congruent(m, #[trigger] s.bb[i] as int, bb[i]) by {
        lemma_residue(m, bb[i]);
    }
    lemma_residue(m, aa[k]);
    assert(congruent(m, s.bb[4] as int, bb[4]) && congruent(m, s.bb[5] as int, bb[5]));
    lemma_sub(m, s.bb[4] as int, bb[4], s.bb[5] as int, bb[5]);
    lemma_add(m, s.bb[4] as int, bb[4], s.bb[5] as int, bb[5]);
    lemma_residue(m, s.bb[4] - s.bb[5]);
    lemma_residue(m, (s.bb[4] + s.bb[5]) as int);
    assert(congruent(m, s.bb[0] as int, bb[0]) && congruent(m, s.bb[1] as int, bb[1]));
    assert(congruent(m, s.bb[2] as int, bb[2]) && congruent(m, s.bb[3] as int, bb[3]));
    assert(congruent(m, s.x1[k] as int, moved[k]));
    assert(congruent(m, s.aa[k] as int, aa[k]));
    lemma_add(m, s.x1[k] as int, moved[k], s.aa[k] as int, aa[k]);
    assert(s.x[k] == model::residue(m, (s.x1[k] + s.aa[k]) as int));
    assert(model::fp12_product(a, b)[k] == moved[k] + aa[k]);
}

/// The steps on the way to a product in the twelfth degree extension lead to the product.
pub proof fn lemma_fp12_steps(m: nat, a: Seq<nat>, b: Seq<nat>)
    requires
        m > 0,
        a.len() == 12,
        b.len() == 12,
    ensures
        model::fp12_mul(m, a, b) == model::fp12_steps(m, a, b).x + model::fp12_steps(m, a, b).y,
{
    let s = model::fp12_steps(m, a, b);
    assert forall|k: int| 0 <= k < 12 implies model::fp12_mul(m, a, b)[k] == (s.x + s.y)[k] by {
        if k < 6 {
            lemma_lower(m, a, b, k);
        } else {
            lemma_upper(m, a, b, k - 6);
        }
    }
    assert(model::fp12_mul(m, a, b) =~= s.x + s.y);
}

} // verus!
