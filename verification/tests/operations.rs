use fp12_mul::columns::AuxFp12MulCols;
use fp12_mul::columns::ByteLookups;
use fp12_mul::columns::FieldOp;
use fp12_mul::columns::FieldOpCols;
use fp12_mul::columns::FieldOperation;
use fp12_mul::columns::FieldOperation::Add;
use fp12_mul::columns::FieldOperation::Mul;
use fp12_mul::columns::FieldOperation::Sub;
use fp12_mul::columns::Fp6AddCols;
use fp12_mul::columns::Fp6MulByNonResidueCols;
use fp12_mul::columns::Fp6MulCols;
use fp12_mul::columns::SumOfProductsAuxillaryCols;
use fp12_mul::columns::SumOfProductsCols;
use fp12_mul::constraints::Fp12MulChipConstraints;
use fp12_mul::natural::Natural;

const SHARD: u32 = 3;
const CHANNEL: u32 = 4;

fn n(value: u32) -> Natural {
    Natural::from_u32(value)
}

fn six(x: [u32; 6]) -> [Natural; 6] {
    x.map(n)
}

fn twelve(x: [u32; 12]) -> [Natural; 12] {
    x.map(n)
}

fn constraints(modulus: u32) -> Fp12MulChipConstraints {
    Fp12MulChipConstraints::new(SHARD, CHANNEL, Vec::new(), n(modulus))
}

fn plain(x: &[Natural; 6]) -> [(i8, &Natural); 6] {
    [(1, &x[0]), (1, &x[1]), (1, &x[2]), (1, &x[3]), (1, &x[4]), (1, &x[5])]
}

fn alternating(x: &[Natural; 6]) -> [(i8, &Natural); 6] {
    [(1, &x[0]), (-1, &x[1]), (1, &x[2]), (-1, &x[3]), (1, &x[4]), (-1, &x[5])]
}

fn is_operation(
    laid_out: &FieldOp<Natural>,
    modulus: u32,
    a: u32,
    op: FieldOperation,
    b: u32,
) -> bool {
    laid_out.shard == SHARD
        && laid_out.channel == CHANNEL
        && laid_out.op == op
        && laid_out.modulus == n(modulus)
        && laid_out.a == n(a)
        && laid_out.b == n(b)
}

fn assert_laid_out(
    cols: &FieldOpCols<Natural>,
    modulus: u32,
    a: u32,
    op: FieldOperation,
    b: u32,
) {
    match &cols.operation {
        Some(laid_out) => assert!(is_operation(laid_out, modulus, a, op, b), "{:?}", laid_out),
        None => panic!("nothing is laid out"),
    }
}

fn assert_looked_up(
    lookups: &ByteLookups<Natural>,
    modulus: u32,
    a: u32,
    op: FieldOperation,
    b: u32,
) {
    match lookups {
        ByteLookups::FieldOp(laid_out) => {
            assert!(is_operation(laid_out, modulus, a, op, b), "{:?}", laid_out)
        }
        other => panic!("not a field operation: {:?}", other),
    }
}

fn assert_all_laid_out(
    cols: &Fp6AddCols<Natural>,
    modulus: u32,
    a: [u32; 6],
    op: FieldOperation,
    b: [u32; 6],
) {
    assert_laid_out(&cols.a00_p_b00, modulus, a[0], op, b[0]);
    assert_laid_out(&cols.a01_p_b01, modulus, a[1], op, b[1]);
    assert_laid_out(&cols.a10_p_b10, modulus, a[2], op, b[2]);
    assert_laid_out(&cols.a11_p_b11, modulus, a[3], op, b[3]);
    assert_laid_out(&cols.a20_p_b20, modulus, a[4], op, b[4]);
    assert_laid_out(&cols.a21_p_b21, modulus, a[5], op, b[5]);
}

/// The product of sextic elements.
fn times(modulus: u32, a: [u32; 6], b: [u32; 6]) -> [Natural; 6] {
    constraints(modulus).fp6_mul(&mut Fp6MulCols::<Natural>::zeroed(), &six(a), &six(b))
}

/// The product of elements of the twelfth degree extension.
fn times_12(modulus: u32, a: [u32; 12], b: [u32; 12]) -> [Natural; 12] {
    constraints(modulus).fp12_mul(
        &mut AuxFp12MulCols::<Natural>::zeroed(),
        twelve(a),
        twelve(b),
    )
}

const ONE: [u32; 6] = [1, 0, 0, 0, 0, 0];
const U: [u32; 6] = [0, 1, 0, 0, 0, 0];
const V: [u32; 6] = [0, 0, 1, 0, 0, 0];
const V_SQUARED: [u32; 6] = [0, 0, 0, 0, 1, 0];

#[test]
fn any_kind_of_operation_can_be_laid_out() {
    let mut c = constraints(7);
    let mut dest = FieldOpCols::<Natural>::zeroed();
    assert!(dest.operation.is_none());
    let kinds = [
        FieldOperation::Add,
        FieldOperation::Mul,
        FieldOperation::Sub,
        FieldOperation::Div,
    ];
    for kind in kinds {
        c.populate_with_modulus(&mut dest, &n(6), &n(2), kind);
        let op = dest.operation.clone().unwrap();
        assert_eq!(op.op, kind);
        assert_eq!((op.shard, op.channel), (SHARD, CHANNEL));
        assert_eq!((op.a, op.b, op.modulus), (n(6), n(2), n(7)));
    }
    assert_eq!(c.new_byte_lookup_events.len(), 4);
}

#[test]
fn a_product_of_coefficients() {
    let mut c = constraints(7);
    let mut dest = FieldOpCols::<Natural>::zeroed();
    assert_eq!(c.mul(&mut dest, &n(3), &n(5)), n(1));
    assert_laid_out(&dest, 7, 3, Mul, 5);
    assert_eq!(c.new_byte_lookup_events.len(), 1);
    assert_looked_up(&c.new_byte_lookup_events[0], 7, 3, Mul, 5);
    assert_eq!(c.modulus, n(7));
    assert_eq!((c.shard, c.channel), (SHARD, CHANNEL));
}

#[test]
fn a_sum_of_coefficients() {
    let mut c = constraints(7);
    let mut dest = FieldOpCols::<Natural>::zeroed();
    assert_eq!(c.add(&mut dest, &n(3), &n(5)), n(1));
    assert_laid_out(&dest, 7, 3, Add, 5);
    assert_looked_up(&c.new_byte_lookup_events[0], 7, 3, Add, 5);
}

#[test]
fn a_difference_of_coefficients() {
    let mut c = constraints(7);
    let mut dest = FieldOpCols::<Natural>::zeroed();
    assert_eq!(c.sub(&mut dest, &n(30), &n(5)), n(4));
    assert_laid_out(&dest, 7, 30, Sub, 5);
    assert_looked_up(&c.new_byte_lookup_events[0], 7, 30, Sub, 5);
    assert_eq!(c.sub(&mut dest, &n(5), &n(5)), n(0));
}

#[test]
fn results_are_below_the_modulus() {
    let mut c = constraints(1);
    let mut dest = FieldOpCols::<Natural>::zeroed();
    assert_eq!(c.mul(&mut dest, &n(9), &n(8)), n(0));
    assert_eq!(c.add(&mut dest, &n(9), &n(8)), n(0));
    assert_eq!(c.sub(&mut dest, &n(9), &n(8)), n(0));
}

#[test]
fn the_order_of_operands_does_not_matter() {
    let mut c = constraints(101);
    let mut dest = FieldOpCols::<Natural>::zeroed();
    assert_eq!(c.mul(&mut dest, &n(77), &n(45)), c.mul(&mut dest, &n(45), &n(77)));
    assert_eq!(c.add(&mut dest, &n(77), &n(45)), c.add(&mut dest, &n(45), &n(77)));
}

#[test]
fn sums_and_differences_undo_each_other() {
    let mut c = constraints(101);
    let mut dest = FieldOpCols::<Natural>::zeroed();
    let difference = c.sub(&mut dest, &n(250), &n(33));
    assert_eq!(c.add(&mut dest, &difference, &n(33)), n(250 % 101));
    let sum = c.add(&mut dest, &n(20), &n(33));
    assert_eq!(c.sub(&mut dest, &sum, &n(33)), n(20));
}

#[test]
fn reducing_a_factor_first_changes_nothing() {
    let mut c = constraints(101);
    let mut dest = FieldOpCols::<Natural>::zeroed();
    let r = c.mul(&mut dest, &n(250), &n(777));
    assert_eq!(c.mul(&mut dest, &n(250 % 101), &n(777)), r);
    assert_eq!(c.mul(&mut dest, &n(250), &n(777 % 101)), r);
}

#[test]
fn earlier_lookups_stay_in_front() {
    let mut c = constraints(7);
    let mut dest = FieldOpCols::<Natural>::zeroed();
    c.mul(&mut dest, &n(1), &n(2));
    let mut later =
        Fp12MulChipConstraints::new(SHARD, CHANNEL, c.new_byte_lookup_events.clone(), n(11));
    later.mul(&mut dest, &n(3), &n(4));
    assert_eq!(later.new_byte_lookup_events.len(), 2);
    assert_looked_up(&later.new_byte_lookup_events[0], 7, 1, Mul, 2);
    assert_looked_up(&later.new_byte_lookup_events[1], 11, 3, Mul, 4);
}

#[test]
fn sums_and_differences_for_a_sextic_product() {
    let mut c = constraints(11);
    let mut dest = SumOfProductsAuxillaryCols::<Natural>::zeroed();
    let b = six([1, 2, 9, 4, 30, 7]);
    let r = c.sum_of_products_aux(&mut dest, [&b[0], &b[1], &b[2], &b[3], &b[4], &b[5]]);
    assert_eq!(r, [n(2), n(5), n(4), n(1)]);
    assert_laid_out(&dest.b10_p_b11, 11, 9, Add, 4);
    assert_laid_out(&dest.b10_m_b11, 11, 9, Sub, 4);
    assert_laid_out(&dest.b20_p_b21, 11, 30, Add, 7);
    assert_laid_out(&dest.b20_m_b21, 11, 30, Sub, 7);
    assert_eq!(c.new_byte_lookup_events.len(), 4);
    assert_looked_up(&c.new_byte_lookup_events[0], 11, 9, Add, 4);
    assert_looked_up(&c.new_byte_lookup_events[3], 11, 30, Sub, 7);
}

#[test]
fn six_products_of_one_sum_to_six() {
    let mut c = constraints(1000);
    let mut dest = SumOfProductsCols::<Natural>::zeroed();
    let a = six([1; 6]);
    assert_eq!(c.sum_of_products(&mut dest, plain(&a), plain(&a)), n(6));
    assert_laid_out(&dest.a6_t_b6, 1000, 1, Mul, 1);
    assert_laid_out(&dest.sum1, 1000, 1, Add, 1);
    assert_laid_out(&dest.sum2, 1000, 2, Add, 1);
    assert_laid_out(&dest.sum3, 1000, 3, Add, 1);
    assert_laid_out(&dest.sum4, 1000, 4, Add, 1);
    assert_laid_out(&dest.sum5, 1000, 5, Add, 1);
    assert_eq!(c.new_byte_lookup_events.len(), 11);
    assert_looked_up(&c.new_byte_lookup_events[5], 1000, 1, Mul, 1);
    assert_looked_up(&c.new_byte_lookup_events[6], 1000, 1, Add, 1);
    assert_looked_up(&c.new_byte_lookup_events[10], 1000, 5, Add, 1);
}

#[test]
fn a_sum_of_products_with_signs() {
    let mut c = constraints(101);
    let mut dest = SumOfProductsCols::<Natural>::zeroed();
    let a = six([9, 1, 2, 3, 4, 5]);
    let b = six([10, 20, 30, 4, 6, 7]);
    // 90 - 20 + 60 - 12 + 24 - 35 is 107.
    let r = c.sum_of_products(&mut dest, alternating(&a), plain(&b));
    assert_eq!(r, n(6));
    assert_laid_out(&dest.a1_t_b1, 101, 9, Mul, 10);
    assert_laid_out(&dest.a2_t_b2, 101, 1, Mul, 20);
    assert_laid_out(&dest.sum1, 101, 90, Sub, 20);
    assert_laid_out(&dest.sum2, 101, 70, Add, 60);
    assert_laid_out(&dest.sum3, 101, 29, Sub, 12);
    assert_laid_out(&dest.sum4, 101, 17, Add, 24);
    assert_laid_out(&dest.sum5, 101, 41, Sub, 35);
    // Equal signs cancel, whatever they are.
    let r = c.sum_of_products(&mut dest, alternating(&a), alternating(&b));
    assert_eq!(r, c.sum_of_products(&mut dest, plain(&a), plain(&b)));
}

#[test]
fn a_product_may_be_larger_than_the_sum_it_is_taken_from() {
    let mut c = constraints(7);
    let mut dest = SumOfProductsCols::<Natural>::zeroed();
    let a = six([0, 1, 0, 0, 0, 0]);
    assert_eq!(c.sum_of_products(&mut dest, alternating(&a), plain(&a)), n(6));
    assert_laid_out(&dest.sum1, 7, 0, Sub, 1);
    assert_laid_out(&dest.sum2, 7, 6, Add, 0);
}

#[test]
fn what_columns_held_before_does_not_matter() {
    let mut c = constraints(7);
    let mut dest = SumOfProductsCols::<Natural>::zeroed();
    c.mul(&mut dest.sum1, &n(5), &n(6));
    let a = six([3; 6]);
    c.sum_of_products(&mut dest, plain(&a), plain(&a));
    assert_laid_out(&dest.sum1, 7, 2, Add, 2);
}

#[test]
fn products_of_the_basis_of_the_sextic_extension() {
    assert_eq!(times(101, ONE, ONE), six(ONE));
    assert_eq!(times(101, ONE, V), six(V));
    assert_eq!(times(101, ONE, V_SQUARED), six(V_SQUARED));
    assert_eq!(times(101, [0, 0, 0, 0, 0, 1], ONE), six([0, 0, 0, 0, 0, 1]));
    assert_eq!(times(7, U, U), six([6, 0, 0, 0, 0, 0]));
    assert_eq!(times(101, V, V), six(V_SQUARED));
    // The cube of v is 1 + u.
    assert_eq!(times(101, V, V_SQUARED), six([1, 1, 0, 0, 0, 0]));
    assert_eq!(times(101, V_SQUARED, V_SQUARED), six([0, 0, 1, 1, 0, 0]));
}

#[test]
fn a_product_of_sextic_elements() {
    let mut c = constraints(1009);
    let mut dest = Fp6MulCols::<Natural>::zeroed();
    let a = six([209, 186, 963, 991, 707, 201]);
    let b = six([989, 988, 915, 392, 305, 22]);
    let r = c.fp6_mul(&mut dest, &a, &b);
    assert_eq!(r, six([766, 1008, 969, 692, 574, 896]));
    assert_eq!(c.fp6_mul(&mut dest.clone(), &b, &a), r);
    assert_eq!(c.new_byte_lookup_events.len(), 140);
    assert_laid_out(&dest.aux.b10_p_b11, 1009, 915, Add, 392);
    assert_laid_out(&dest.aux.b10_m_b11, 1009, 915, Sub, 392);
    assert_laid_out(&dest.c00.a3_t_b3, 1009, 963, Mul, 283);
    assert_laid_out(&dest.c00.a4_t_b4, 1009, 991, Mul, 327);
    assert_laid_out(&dest.c01.a1_t_b1, 1009, 209, Mul, 988);
    assert_laid_out(&dest.c10.a6_t_b6, 1009, 201, Mul, 327);
    assert_laid_out(&dest.c11.a2_t_b2, 1009, 186, Mul, 915);
    assert_laid_out(&dest.c20.a5_t_b5, 1009, 707, Mul, 989);
    assert_laid_out(&dest.c21.a1_t_b1, 1009, 209, Mul, 22);
    assert_eq!(dest.c00.sum1.operation.as_ref().unwrap().op, Sub);
    assert_eq!(dest.c00.sum2.operation.as_ref().unwrap().op, Add);
    assert_eq!(dest.c01.sum1.operation.as_ref().unwrap().op, Add);
    assert_eq!(dest.c20.sum5.operation.as_ref().unwrap().op, Sub);
}

#[test]
fn another_product_of_sextic_elements() {
    let (a, b) = ([9, 463, 47, 724, 185, 638], [978, 977, 201, 121, 773, 251]);
    let r = times(1009, a, b);
    assert_eq!(r, six([24, 372, 11, 397, 816, 342]));
    // A factor may as well be reduced only by the product.
    assert_eq!(times(1009, [9 + 1009, 463, 47, 724 + 2018, 185, 638 + 1009], b), r);
    assert_eq!(times(1009, a, [978, 977 + 1009, 201, 121, 773, 251 + 5045]), r);
}

#[test]
fn differences_of_coefficients_may_be_negative() {
    let r = times(101, [3, 1, 4, 1, 5, 9], [2, 6, 5, 35, 8, 97]);
    assert_eq!(r, six([39, 79, 6, 62, 70, 88]));
}

#[test]
fn coefficients_of_a_sextic_product_are_sums_of_six_products() {
    let a: [i64; 6] = [209, 186, 963, 991, 707, 201];
    let b: [i64; 6] = [989, 988, 15, 392, 305, 622];
    let first = a[0] * b[0] - a[1] * b[1] + a[2] * (b[4] - b[5]) - a[3] * (b[4] + b[5])
        + a[4] * (b[2] - b[3])
        - a[5] * (b[2] + b[3]);
    let last = a[0] * b[5] + a[1] * b[4] + a[2] * b[3] + a[3] * b[2] + a[4] * b[1] + a[5] * b[0];
    let r = times(1009, a.map(|x| x as u32), b.map(|x| x as u32));
    assert_eq!(r[0], n(first.rem_euclid(1009) as u32));
    assert_eq!(r[5], n(last.rem_euclid(1009) as u32));
}

#[test]
fn sextic_products_distribute_over_sums() {
    let mut c = constraints(1009);
    let mut dest = Fp6AddCols::<Natural>::zeroed();
    let (a, b) = ([9, 463, 47, 724, 185, 638], [978, 977, 201, 121, 773, 251]);
    let d = [209, 186, 963, 991, 707, 201];
    let sum = c.fp6_add(&mut dest, &six(a), &six(b));
    let left = c.fp6_mul(&mut Fp6MulCols::<Natural>::zeroed(), &sum, &six(d));
    let right = c.fp6_add(&mut dest, &times(1009, a, d), &times(1009, b, d));
    assert_eq!(left, right);
}

#[test]
fn sextic_products_with_one_and_zero() {
    let a = [9, 463, 47, 2000, 185, 638];
    assert_eq!(times(1009, a, ONE), six([9, 463, 47, 991, 185, 638]));
    assert_eq!(times(1009, ONE, a), six([9, 463, 47, 991, 185, 638]));
    assert_eq!(times(1009, a, [0; 6]), six([0; 6]));
    assert_eq!(times(1009, [0; 6], a), six([0; 6]));
}

#[test]
fn a_sum_of_sextic_elements() {
    let mut c = constraints(10);
    let mut dest = Fp6AddCols::<Natural>::zeroed();
    let (a, b) = ([1, 2, 3, 4, 5, 16], [9, 9, 9, 5, 5, 5]);
    let r = c.fp6_add(&mut dest, &six(a), &six(b));
    assert_eq!(r, six([0, 1, 2, 9, 0, 1]));
    assert_all_laid_out(&dest, 10, a, Add, b);
    assert_eq!(c.new_byte_lookup_events.len(), 6);
    assert_eq!(c.fp6_add(&mut dest, &six(b), &six(a)), r);
}

#[test]
fn a_difference_of_sextic_elements() {
    let mut c = constraints(10);
    let mut dest = Fp6AddCols::<Natural>::zeroed();
    let (a, b) = ([9, 9, 19, 25, 5, 16], [1, 9, 3, 4, 5, 0]);
    let r = c.fp6_sub(&mut dest, &six(a), &six(b));
    assert_eq!(r, six([8, 0, 6, 1, 0, 6]));
    assert_all_laid_out(&dest, 10, a, Sub, b);
    assert_eq!(c.new_byte_lookup_events.len(), 6);
    assert_eq!(c.fp6_add(&mut dest, &r, &six(b)), six([9, 9, 9, 5, 5, 6]));
}

#[test]
fn a_product_with_the_non_residue() {
    let mut c = constraints(50);
    let mut dest = Fp6MulByNonResidueCols::<Natural>::zeroed();
    let a = [1, 2, 3, 44, 29, 5];
    let r = c.fp6_mul_by_non_residue(&mut dest, &six(a));
    assert_eq!(r, six([24, 34, 1, 2, 3, 44]));
    assert_laid_out(&dest.c00, 50, 29, Sub, 5);
    assert_laid_out(&dest.c01, 50, 29, Add, 5);
    assert_laid_out(&dest.c10, 50, 1, Add, 0);
    assert_laid_out(&dest.c11, 50, 2, Add, 0);
    assert_laid_out(&dest.c20, 50, 3, Add, 0);
    assert_laid_out(&dest.c21, 50, 44, Add, 0);
    assert_eq!(c.new_byte_lookup_events.len(), 6);
    assert_eq!(times(50, V, a), r);
}

#[test]
fn a_product_in_the_twelfth_degree_extension() {
    let mut c = constraints(1009);
    let mut dest = AuxFp12MulCols::<Natural>::zeroed();
    let a = [131, 879, 446, 384, 986, 620, 3, 500, 77, 0, 4, 901];
    let b = [420, 697, 337, 124, 891, 371, 4, 2, 642, 1, 4, 3];
    let r = c.fp12_mul(&mut dest, twelve(a), twelve(b));
    assert_eq!(
        r,
        twelve([880, 887, 269, 836, 870, 845, 573, 981, 920, 177, 781, 966])
    );
    assert_eq!(times_12(1009, b, a), r);

    let aa = [778, 488, 811, 371, 394, 630];
    let bb = [467, 465, 476, 215, 755, 653];
    let (a0, a1) = ([131, 879, 446, 384, 986, 620], [3, 500, 77, 0, 4, 901]);
    let (b0, b1) = ([420, 697, 337, 124, 891, 371], [4, 2, 642, 1, 4, 3]);
    assert_eq!(times(1009, a0, b0), six(aa));
    assert_eq!(times(1009, a1, b1), six(bb));
    assert_laid_out(&dest.aa.c00.a1_t_b1, 1009, 131, Mul, 420);
    assert_laid_out(&dest.bb.c21.a1_t_b1, 1009, 3, Mul, 3);
    assert_all_laid_out(&dest.o, 1009, b0, Add, b1);
    assert_all_laid_out(&dest.y1, 1009, a1, Add, a0);
    assert_laid_out(&dest.y2.c00.a1_t_b1, 1009, 134, Mul, 424);
    assert_all_laid_out(&dest.y3, 1009, [809, 925, 189, 763, 921, 231], Sub, aa);
    assert_all_laid_out(&dest.y, 1009, [31, 437, 387, 392, 527, 610], Sub, bb);
    assert_laid_out(&dest.x1.c00, 1009, 755, Sub, 653);
    assert_laid_out(&dest.x1.c01, 1009, 755, Add, 653);
    assert_laid_out(&dest.x1.c10, 1009, 467, Add, 0);
    assert_laid_out(&dest.x1.c21, 1009, 215, Add, 0);
    assert_all_laid_out(&dest.x, 1009, [102, 399, 467, 465, 476, 215], Add, aa);

    assert_eq!(c.new_byte_lookup_events.len(), 246);
    for lookups in &c.new_byte_lookup_events {
        match lookups {
            ByteLookups::FieldOp(op) => {
                assert_eq!(op.modulus, n(1009));
                assert_eq!((op.shard, op.channel), (SHARD, CHANNEL));
            }
            other => panic!("not a field operation: {:?}", other),
        }
    }
    // The products of the halves come first, the last sum last.
    assert_looked_up(&c.new_byte_lookup_events[0], 1009, 337, Add, 124);
    assert_looked_up(&c.new_byte_lookup_events[4], 1009, 131, Mul, 420);
    assert_looked_up(&c.new_byte_lookup_events[70], 1009, 642, Add, 1);
    assert_looked_up(&c.new_byte_lookup_events[140], 1009, 420, Add, 4);
    assert_looked_up(&c.new_byte_lookup_events[245], 1009, 215, Add, 630);
}

#[test]
fn the_halves_of_a_product_cross() {
    let r = times_12(
        101,
        [0, 0, 0, 0, 2, 0, 0, 0, 0, 0, 0, 0],
        [0, 0, 0, 0, 0, 0, 5, 1, 7, 3, 9, 4],
    );
    assert_eq!(r, twelve([0, 0, 0, 0, 0, 0, 8, 20, 10, 26, 10, 2]));
    // The square of w is v.
    let w = [0, 0, 0, 0, 0, 0, 1, 0, 0, 0, 0, 0];
    assert_eq!(times_12(101, w, w), twelve([0, 0, 1, 0, 0, 0, 0, 0, 0, 0, 0, 0]));
}

#[test]
fn products_with_one_and_zero() {
    let a = [131, 879, 446, 384, 986, 620, 3, 500, 77, 0, 4, 901];
    let one = [1, 0, 0, 0, 0, 0, 0, 0, 0, 0, 0, 0];
    assert_eq!(times_12(1009, a, one), twelve(a));
    assert_eq!(times_12(1009, one, a), twelve(a));
    assert_eq!(times_12(1009, a, [0; 12]), twelve([0; 12]));
    assert_eq!(times_12(1009, [0; 12], a), twelve([0; 12]));
}

#[test]
fn clones_of_columns_hold_the_same_operations() {
    let mut c = constraints(7);
    let mut dest = AuxFp12MulCols::<Natural>::zeroed();
    c.mul(&mut dest.y2.c11.a4_t_b4, &n(5), &n(6));
    c.add(&mut dest.x1.c20, &n(1), &n(2));
    let copy = dest.clone();
    assert_laid_out(&copy.y2.c11.a4_t_b4, 7, 5, Mul, 6);
    assert_laid_out(&copy.x1.c20, 7, 1, Add, 2);
    assert!(copy.aa.c00.a1_t_b1.operation.is_none());
}
