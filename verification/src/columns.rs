//! The columns of a product in the twelfth degree extension.
//!
//! A group of columns is described by what is laid out in it: the operands, the modulus and the
//! kind of one field operation. The column types take the type of these numbers as a parameter:
//! `Natural` in code, `nat` in contracts.
use vstd::prelude::*;

use crate::memory::MemoryReadAccess;
use crate::memory::MemoryWriteAccess;
use crate::natural::Natural;

verus! {

/// The kinds of field operation that columns can hold.
#[derive(Debug, Clone, Copy, PartialEq, Eq, Structural)]
pub enum FieldOperation {
    Add,
    Mul,
    Sub,
    Div,
}

/// One field operation to be laid out in columns: `a op b` modulo `modulus`.
#[derive(Debug)]
pub struct FieldOp<T> {
    pub shard: u32,
    pub channel: u32,
    pub a: T,
    pub b: T,
    pub modulus: T,
    pub op: FieldOperation,
}

impl FieldOp<nat> {
    /// Whether `r` is the result of the operation, the value that columns hold in which it is laid
    /// out.
    pub open spec fn results_in(self, r: nat) -> bool {
        &&& r < self.modulus
        &&& match self.op {
            FieldOperation::Add => r == (self.a + self.b) % self.modulus,
            FieldOperation::Mul => r == (self.a * self.b) % self.modulus,
            FieldOperation::Sub => r == (self.a - self.b) % (self.modulus as int),
            FieldOperation::Div => (r * self.b) % self.modulus == self.a % self.modulus,
        }
    }
}

impl View for FieldOp<Natural> {
    type V = FieldOp<nat>;

    open spec fn view(&self) -> FieldOp<nat> {
        FieldOp {
            shard: self.shard,
            channel: self.channel,
            a: self.a@,
            b: self.b@,
            modulus: self.modulus@,
            op: self.op,
        }
    }
}

impl Clone for FieldOp<Natural> {
    fn clone(&self) -> (r: FieldOp<Natural>)
        ensures
            r@ == self@,
    {
        FieldOp {
            shard: self.shard,
            channel: self.channel,
            a: self.a.clone(),
            b: self.b.clone(),
            modulus: self.modulus.clone(),
            op: self.op,
        }
    }
}

/// What the byte table is asked to look up for one populated group of columns, named by what was
/// laid out there.
#[derive(Debug)]
pub enum ByteLookups<T> {
    MemoryWrite(MemoryWriteAccess),
    MemoryRead(MemoryReadAccess),
    FieldOp(FieldOp<T>),
}

impl View for ByteLookups<Natural> {
    type V = ByteLookups<nat>;

    open spec fn view(&self) -> ByteLookups<nat> {
        match *self {
            ByteLookups::MemoryWrite(access) => ByteLookups::MemoryWrite(access),
            ByteLookups::MemoryRead(access) => ByteLookups::MemoryRead(access),
            ByteLookups::FieldOp(op) => ByteLookups::FieldOp(op@),
        }
    }
}

impl Clone for ByteLookups<Natural> {
    fn clone(&self) -> (r: ByteLookups<Natural>)
        ensures
            r@ == self@,
    {
        match self {
            ByteLookups::MemoryWrite(access) => ByteLookups::MemoryWrite(*access),
            ByteLookups::MemoryRead(access) => ByteLookups::MemoryRead(*access),
            ByteLookups::FieldOp(op) => ByteLookups::FieldOp(op.clone()),
        }
    }
}

/// A list of lookups with its numbers as `nat`.
pub open spec fn lookup_values(lookups: Seq<ByteLookups<Natural>>) -> Seq<ByteLookups<nat>> {
    lookups.map_values(|l: ByteLookups<Natural>| l@)
}

/// The columns of one field operation. They are zero until an operation is laid out in them.
#[derive(Debug)]
pub struct FieldOpCols<T> {
    pub operation: Option<FieldOp<T>>,
}

impl View for FieldOpCols<Natural> {
    type V = FieldOpCols<nat>;

    open spec fn view(&self) -> FieldOpCols<nat> {
        FieldOpCols {
            operation: match self.operation {
                Some(op) => Some(op@),
                None => None,
            },
        }
    }
}

impl FieldOpCols<nat> {
    /// Whether an operation with the result `r` is laid out.
    pub open spec fn holds(self, r: nat) -> bool {
        match self.operation {
            Some(op) => op.results_in(r),
            None => false,
        }
    }

    /// Columns in which nothing is laid out: every cell is zero.
    pub open spec fn blank() -> FieldOpCols<nat> {
        FieldOpCols { operation: None }
    }
}

impl FieldOpCols<Natural> {
    /// Columns in which nothing is laid out.
    pub fn zeroed() -> (r: FieldOpCols<Natural>)
        ensures
            r@ == FieldOpCols::<nat>::blank(),
    {
        FieldOpCols { operation: None }
    }

    /// Lays `a op b` modulo `modulus` out in these columns and appends the lookups that this asks
    /// for to `record`.
    pub fn populate_with_modulus(
        &mut self,
        record: &mut Vec<ByteLookups<Natural>>,
        shard: u32,
        channel: u32,
        a: &Natural,
        b: &Natural,
        modulus: &Natural,
        op: FieldOperation,
    )
        ensures
            final(self)@ == (FieldOpCols {
                operation: Some(
                    FieldOp { shard, channel, a: a@, b: b@, modulus: modulus@, op },
                ),
            }),
            final(self).operation is Some,
            final(self).operation->0.shard == shard,
            final(self).operation->0.channel == channel,
            final(self).operation->0.a@ == a@,
            final(self).operation->0.b@ == b@,
            final(self).operation->0.modulus@ == modulus@,
            final(self).operation->0.op == op,
            lookup_values(final(record)@) == lookup_values(old(record)@).push(
                ByteLookups::FieldOp(
                    FieldOp { shard, channel, a: a@, b: b@, modulus: modulus@, op },
                ),
            ),
    {
        let operation = FieldOp {
            shard,
            channel,
            a: a.clone(),
            b: b.clone(),
            modulus: modulus.clone(),
            op,
        };
        let lookups = ByteLookups::FieldOp(operation.clone());
        assert(lookup_values(record@.push(lookups)) =~= lookup_values(record@).push(lookups@));
        record.push(lookups);
        self.operation = Some(operation);
    }
}

impl Clone for FieldOpCols<Natural> {
    fn clone(&self) -> (r: FieldOpCols<Natural>)
        ensures
            r@ == self@,
    {
        match &self.operation {
            Some(op) => FieldOpCols { operation: Some(op.clone()) },
            None => FieldOpCols { operation: None },
        }
    }
}

/// The columns of the sums and differences that a product of sextic elements needs of the second
/// factor `b`.
#[derive(Debug)]
pub struct SumOfProductsAuxillaryCols<T> {
    /// The sum of `b[2]` and `b[3]`.
    pub b10_p_b11: FieldOpCols<T>,
    /// `b[2]` less `b[3]`.
    pub b10_m_b11: FieldOpCols<T>,
    /// The sum of `b[4]` and `b[5]`.
    pub b20_p_b21: FieldOpCols<T>,
    /// `b[4]` less `b[5]`.
    pub b20_m_b21: FieldOpCols<T>,
}

impl View for SumOfProductsAuxillaryCols<Natural> {
    type V = SumOfProductsAuxillaryCols<nat>;

    open spec fn view(&self) -> SumOfProductsAuxillaryCols<nat> {
        SumOfProductsAuxillaryCols {
            b10_p_b11: self.b10_p_b11@,
            b10_m_b11: self.b10_m_b11@,
            b20_p_b21: self.b20_p_b21@,
            b20_m_b21: self.b20_m_b21@,
        }
    }
}

impl SumOfProductsAuxillaryCols<nat> {
    /// Columns in which nothing is laid out: every cell is zero.
    pub open spec fn blank() -> SumOfProductsAuxillaryCols<nat> {
        SumOfProductsAuxillaryCols {
            b10_p_b11: FieldOpCols::<nat>::blank(),
            b10_m_b11: FieldOpCols::<nat>::blank(),
            b20_p_b21: FieldOpCols::<nat>::blank(),
            b20_m_b21: FieldOpCols::<nat>::blank(),
        }
    }
}

impl SumOfProductsAuxillaryCols<Natural> {
    /// Columns in which nothing is laid out.
    pub fn zeroed() -> (r: SumOfProductsAuxillaryCols<Natural>)
        ensures
            r@ == SumOfProductsAuxillaryCols::<nat>::blank(),
    {
        SumOfProductsAuxillaryCols {
            b10_p_b11: FieldOpCols::<Natural>::zeroed(),
            b10_m_b11: FieldOpCols::<Natural>::zeroed(),
            b20_p_b21: FieldOpCols::<Natural>::zeroed(),
            b20_m_b21: FieldOpCols::<Natural>::zeroed(),
        }
    }
}

impl Clone for SumOfProductsAuxillaryCols<Natural> {
    fn clone(&self) -> (r: SumOfProductsAuxillaryCols<Natural>)
        ensures
            r@ == self@,
    {
        SumOfProductsAuxillaryCols {
            b10_p_b11: self.b10_p_b11.clone(),
            b10_m_b11: self.b10_m_b11.clone(),
            b20_p_b21: self.b20_p_b21.clone(),
            b20_m_b21: self.b20_m_b21.clone(),
        }
    }
}

/// The columns of one sum of products: six products and the steps that add them up.
#[derive(Debug)]
pub struct SumOfProductsCols<T> {
    /// The product of the pair of factors number 1.
    pub a1_t_b1: FieldOpCols<T>,
    /// The product of the pair of factors number 2.
    pub a2_t_b2: FieldOpCols<T>,
    /// The product of the pair of factors number 3.
    pub a3_t_b3: FieldOpCols<T>,
    /// The product of the pair of factors number 4.
    pub a4_t_b4: FieldOpCols<T>,
    /// The product of the pair of factors number 5.
    pub a5_t_b5: FieldOpCols<T>,
    /// The product of the pair of factors number 6.
    pub a6_t_b6: FieldOpCols<T>,
    /// The step that takes product 2 in.
    pub sum1: FieldOpCols<T>,
    /// The step that takes product 3 in.
    pub sum2: FieldOpCols<T>,
    /// The step that takes product 4 in.
    pub sum3: FieldOpCols<T>,
    /// The step that takes product 5 in.
    pub sum4: FieldOpCols<T>,
    /// The step that takes product 6 in: it holds the sum.
    pub sum5: FieldOpCols<T>,
}

impl View for SumOfProductsCols<Natural> {
    type V = SumOfProductsCols<nat>;

    open spec fn view(&self) -> SumOfProductsCols<nat> {
        SumOfProductsCols {
            a1_t_b1: self.a1_t_b1@,
            a2_t_b2: self.a2_t_b2@,
            a3_t_b3: self.a3_t_b3@,
            a4_t_b4: self.a4_t_b4@,
            a5_t_b5: self.a5_t_b5@,
            a6_t_b6: self.a6_t_b6@,
            sum1: self.sum1@,
            sum2: self.sum2@,
            sum3: self.sum3@,
            sum4: self.sum4@,
            sum5: self.sum5@,
        }
    }
}

impl SumOfProductsCols<nat> {
    /// Columns in which nothing is laid out: every cell is zero.
    pub open spec fn blank() -> SumOfProductsCols<nat> {
        SumOfProductsCols {
            a1_t_b1: FieldOpCols::<nat>::blank(),
            a2_t_b2: FieldOpCols::<nat>::blank(),
            a3_t_b3: FieldOpCols::<nat>::blank(),
            a4_t_b4: FieldOpCols::<nat>::blank(),
            a5_t_b5: FieldOpCols::<nat>::blank(),
            a6_t_b6: FieldOpCols::<nat>::blank(),
            sum1: FieldOpCols::<nat>::blank(),
            sum2: FieldOpCols::<nat>::blank(),
            sum3: FieldOpCols::<nat>::blank(),
            sum4: FieldOpCols::<nat>::blank(),
            sum5: FieldOpCols::<nat>::blank(),
        }
    }
}

impl SumOfProductsCols<Natural> {
    /// Columns in which nothing is laid out.
    pub fn zeroed() -> (r: SumOfProductsCols<Natural>)
        ensures
            r@ == SumOfProductsCols::<nat>::blank(),
    {
        SumOfProductsCols {
            a1_t_b1: FieldOpCols::<Natural>::zeroed(),
            a2_t_b2: FieldOpCols::<Natural>::zeroed(),
            a3_t_b3: FieldOpCols::<Natural>::zeroed(),
            a4_t_b4: FieldOpCols::<Natural>::zeroed(),
            a5_t_b5: FieldOpCols::<Natural>::zeroed(),
            a6_t_b6: FieldOpCols::<Natural>::zeroed(),
            sum1: FieldOpCols::<Natural>::zeroed(),
            sum2: FieldOpCols::<Natural>::zeroed(),
            sum3: FieldOpCols::<Natural>::zeroed(),
            sum4: FieldOpCols::<Natural>::zeroed(),
            sum5: FieldOpCols::<Natural>::zeroed(),
        }
    }
}

impl Clone for SumOfProductsCols<Natural> {
    fn clone(&self) -> (r: SumOfProductsCols<Natural>)
        ensures
            r@ == self@,
    {
        SumOfProductsCols {
            a1_t_b1: self.a1_t_b1.clone(),
            a2_t_b2: self.a2_t_b2.clone(),
            a3_t_b3: self.a3_t_b3.clone(),
            a4_t_b4: self.a4_t_b4.clone(),
            a5_t_b5: self.a5_t_b5.clone(),
            a6_t_b6: self.a6_t_b6.clone(),
            sum1: self.sum1.clone(),
            sum2: self.sum2.clone(),
            sum3: self.sum3.clone(),
            sum4: self.sum4.clone(),
            sum5: self.sum5.clone(),
        }
    }
}

/// The columns of a product of two sextic elements.
#[derive(Debug)]
pub struct Fp6MulCols<T> {
    /// Sums and differences of coefficients of the second factor.
    pub aux: SumOfProductsAuxillaryCols<T>,
    /// Coefficient 0 of the product.
    pub c00: SumOfProductsCols<T>,
    /// Coefficient 1 of the product.
    pub c01: SumOfProductsCols<T>,
    /// Coefficient 2 of the product.
    pub c10: SumOfProductsCols<T>,
    /// Coefficient 3 of the product.
    pub c11: SumOfProductsCols<T>,
    /// Coefficient 4 of the product.
    pub c20: SumOfProductsCols<T>,
    /// Coefficient 5 of the product.
    pub c21: SumOfProductsCols<T>,
}

impl View for Fp6MulCols<Natural> {
    type V = Fp6MulCols<nat>;

    // Opaque, so that proofs about a product do not unfold the columns of its factors unasked.
    #[verifier::opaque]
    open spec fn view(&self) -> Fp6MulCols<nat> {
        Fp6MulCols {
            aux: self.aux@,
            c00: self.c00@,
            c01: self.c01@,
            c10: self.c10@,
            c11: self.c11@,
            c20: self.c20@,
            c21: self.c21@,
        }
    }
}

impl Fp6MulCols<nat> {
    /// Columns in which nothing is laid out: every cell is zero.
    #[verifier::opaque]
    pub open spec fn blank() -> Fp6MulCols<nat> {
        Fp6MulCols {
            aux: SumOfProductsAuxillaryCols::<nat>::blank(),
            c00: SumOfProductsCols::<nat>::blank(),
            c01: SumOfProductsCols::<nat>::blank(),
            c10: SumOfProductsCols::<nat>::blank(),
            c11: SumOfProductsCols::<nat>::blank(),
            c20: SumOfProductsCols::<nat>::blank(),
            c21: SumOfProductsCols::<nat>::blank(),
        }
    }
}

impl Fp6MulCols<Natural> {
    /// Columns in which nothing is laid out.
    pub fn zeroed() -> (r: Fp6MulCols<Natural>)
        ensures
            r@ == Fp6MulCols::<nat>::blank(),
    {
        proof {
            reveal(<Fp6MulCols<Natural> as View>::view);
            reveal(Fp6MulCols::<_>::blank);
        }
        Fp6MulCols {
            aux: SumOfProductsAuxillaryCols::<Natural>::zeroed(),
            c00: SumOfProductsCols::<Natural>::zeroed(),
            c01: SumOfProductsCols::<Natural>::zeroed(),
            c10: SumOfProductsCols::<Natural>::zeroed(),
            c11: SumOfProductsCols::<Natural>::zeroed(),
            c20: SumOfProductsCols::<Natural>::zeroed(),
            c21: SumOfProductsCols::<Natural>::zeroed(),
        }
    }
}

impl Clone for Fp6MulCols<Natural> {
    fn clone(&self) -> (r: Fp6MulCols<Natural>)
        ensures
            r@ == self@,
    {
        proof {
            reveal(<Fp6MulCols<Natural> as View>::view);
        }
        Fp6MulCols {
            aux: self.aux.clone(),
            c00: self.c00.clone(),
            c01: self.c01.clone(),
            c10: self.c10.clone(),
            c11: self.c11.clone(),
            c20: self.c20.clone(),
            c21: self.c21.clone(),
        }
    }
}

/// The columns of a coefficientwise sum or difference of two sextic elements.
#[derive(Debug)]
pub struct Fp6AddCols<T> {
    /// Coefficient 0.
    pub a00_p_b00: FieldOpCols<T>,
    /// Coefficient 1.
    pub a01_p_b01: FieldOpCols<T>,
    /// Coefficient 2.
    pub a10_p_b10: FieldOpCols<T>,
    /// Coefficient 3.
    pub a11_p_b11: FieldOpCols<T>,
    /// Coefficient 4.
    pub a20_p_b20: FieldOpCols<T>,
    /// Coefficient 5.
    pub a21_p_b21: FieldOpCols<T>,
}

impl View for Fp6AddCols<Natural> {
    type V = Fp6AddCols<nat>;

    open spec fn view(&self) -> Fp6AddCols<nat> {
        Fp6AddCols {
            a00_p_b00: self.a00_p_b00@,
            a01_p_b01: self.a01_p_b01@,
            a10_p_b10: self.a10_p_b10@,
            a11_p_b11: self.a11_p_b11@,
            a20_p_b20: self.a20_p_b20@,
            a21_p_b21: self.a21_p_b21@,
        }
    }
}

impl Fp6AddCols<nat> {
    /// Columns in which nothing is laid out: every cell is zero.
    pub open spec fn blank() -> Fp6AddCols<nat> {
        Fp6AddCols {
            a00_p_b00: FieldOpCols::<nat>::blank(),
            a01_p_b01: FieldOpCols::<nat>::blank(),
            a10_p_b10: FieldOpCols::<nat>::blank(),
            a11_p_b11: FieldOpCols::<nat>::blank(),
            a20_p_b20: FieldOpCols::<nat>::blank(),
            a21_p_b21: FieldOpCols::<nat>::blank(),
        }
    }
}

impl Fp6AddCols<Natural> {
    /// Columns in which nothing is laid out.
    pub fn zeroed() -> (r: Fp6AddCols<Natural>)
        ensures
            r@ == Fp6AddCols::<nat>::blank(),
    {
        Fp6AddCols {
            a00_p_b00: FieldOpCols::<Natural>::zeroed(),
            a01_p_b01: FieldOpCols::<Natural>::zeroed(),
            a10_p_b10: FieldOpCols::<Natural>::zeroed(),
            a11_p_b11: FieldOpCols::<Natural>::zeroed(),
            a20_p_b20: FieldOpCols::<Natural>::zeroed(),
            a21_p_b21: FieldOpCols::<Natural>::zeroed(),
        }
    }
}

impl Clone for Fp6AddCols<Natural> {
    fn clone(&self) -> (r: Fp6AddCols<Natural>)
        ensures
            r@ == self@,
    {
        Fp6AddCols {
            a00_p_b00: self.a00_p_b00.clone(),
            a01_p_b01: self.a01_p_b01.clone(),
            a10_p_b10: self.a10_p_b10.clone(),
            a11_p_b11: self.a11_p_b11.clone(),
            a20_p_b20: self.a20_p_b20.clone(),
            a21_p_b21: self.a21_p_b21.clone(),
        }
    }
}

/// The columns of a product of a sextic element `a` with the cubic non-residue.
#[derive(Debug)]
pub struct Fp6MulByNonResidueCols<T> {
    /// `a[4]` less `a[5]`.
    pub c00: FieldOpCols<T>,
    /// The sum of `a[4]` and `a[5]`.
    pub c01: FieldOpCols<T>,
    /// `a[0]`.
    pub c10: FieldOpCols<T>,
    /// `a[1]`.
    pub c11: FieldOpCols<T>,
    /// `a[2]`.
    pub c20: FieldOpCols<T>,
    /// `a[3]`.
    pub c21: FieldOpCols<T>,
}

impl View for Fp6MulByNonResidueCols<Natural> {
    type V = Fp6MulByNonResidueCols<nat>;

    open spec fn view(&self) -> Fp6MulByNonResidueCols<nat> {
        Fp6MulByNonResidueCols {
            c00: self.c00@,
            c01: self.c01@,
            c10: self.c10@,
            c11: self.c11@,
            c20: self.c20@,
            c21: self.c21@,
        }
    }
}

impl Fp6MulByNonResidueCols<nat> {
    /// Columns in which nothing is laid out: every cell is zero.
    pub open spec fn blank() -> Fp6MulByNonResidueCols<nat> {
        Fp6MulByNonResidueCols {
            c00: FieldOpCols::<nat>::blank(),
            c01: FieldOpCols::<nat>::blank(),
            c10: FieldOpCols::<nat>::blank(),
            c11: FieldOpCols::<nat>::blank(),
            c20: FieldOpCols::<nat>::blank(),
            c21: FieldOpCols::<nat>::blank(),
        }
    }
}

impl Fp6MulByNonResidueCols<Natural> {
    /// Columns in which nothing is laid out.
    pub fn zeroed() -> (r: Fp6MulByNonResidueCols<Natural>)
        ensures
            r@ == Fp6MulByNonResidueCols::<nat>::blank(),
    {
        Fp6MulByNonResidueCols {
            c00: FieldOpCols::<Natural>::zeroed(),
            c01: FieldOpCols::<Natural>::zeroed(),
            c10: FieldOpCols::<Natural>::zeroed(),
            c11: FieldOpCols::<Natural>::zeroed(),
            c20: FieldOpCols::<Natural>::zeroed(),
            c21: FieldOpCols::<Natural>::zeroed(),
        }
    }
}

impl Clone for Fp6MulByNonResidueCols<Natural> {
    fn clone(&self) -> (r: Fp6MulByNonResidueCols<Natural>)
        ensures
            r@ == self@,
    {
        Fp6MulByNonResidueCols {
            c00: self.c00.clone(),
            c01: self.c01.clone(),
            c10: self.c10.clone(),
            c11: self.c11.clone(),
            c20: self.c20.clone(),
            c21: self.c21.clone(),
        }
    }
}

/// The columns of a product of two elements `a` and `b` of the twelfth degree extension, each of
/// which is a lower and an upper sextic half.
#[derive(Debug)]
pub struct AuxFp12MulCols<T> {
    /// The product of the lower halves.
    pub aa: Fp6MulCols<T>,
    /// The product of the upper halves.
    pub bb: Fp6MulCols<T>,
    /// The sum of the halves of `b`.
    pub o: Fp6AddCols<T>,
    /// The sum of the halves of `a`.
    pub y1: Fp6AddCols<T>,
    /// `y1` times `o`.
    pub y2: Fp6MulCols<T>,
    /// `y2` less `aa`.
    pub y3: Fp6AddCols<T>,
    /// `y3` less `bb`: the upper half of the result.
    pub y: Fp6AddCols<T>,
    /// `bb` times the non-residue.
    pub x1: Fp6MulByNonResidueCols<T>,
    /// `x1` plus `aa`: the lower half of the result.
    pub x: Fp6AddCols<T>,
}

impl View for AuxFp12MulCols<Natural> {
    type V = AuxFp12MulCols<nat>;

    open spec fn view(&self) -> AuxFp12MulCols<nat> {
        AuxFp12MulCols {
            aa: self.aa@,
            bb: self.bb@,
            o: self.o@,
            y1: self.y1@,
            y2: self.y2@,
            y3: self.y3@,
            y: self.y@,
            x1: self.x1@,
            x: self.x@,
        }
    }
}

impl AuxFp12MulCols<nat> {
    /// Columns in which nothing is laid out: every cell is zero.
    pub open spec fn blank() -> AuxFp12MulCols<nat> {
        AuxFp12MulCols {
            aa: Fp6MulCols::<nat>::blank(),
            bb: Fp6MulCols::<nat>::blank(),
            o: Fp6AddCols::<nat>::blank(),
            y1: Fp6AddCols::<nat>::blank(),
            y2: Fp6MulCols::<nat>::blank(),
            y3: Fp6AddCols::<nat>::blank(),
            y: Fp6AddCols::<nat>::blank(),
            x1: Fp6MulByNonResidueCols::<nat>::blank(),
            x: Fp6AddCols::<nat>::blank(),
        }
    }
}

impl AuxFp12MulCols<Natural> {
    /// Columns in which nothing is laid out.
    pub fn zeroed() -> (r: AuxFp12MulCols<Natural>)
        ensures
            r@ == AuxFp12MulCols::<nat>::blank(),
    {
        AuxFp12MulCols {
            aa: Fp6MulCols::<Natural>::zeroed(),
            bb: Fp6MulCols::<Natural>::zeroed(),
            o: Fp6AddCols::<Natural>::zeroed(),
            y1: Fp6AddCols::<Natural>::zeroed(),
            y2: Fp6MulCols::<Natural>::zeroed(),
            y3: Fp6AddCols::<Natural>::zeroed(),
            y: Fp6AddCols::<Natural>::zeroed(),
            x1: Fp6MulByNonResidueCols::<Natural>::zeroed(),
            x: Fp6AddCols::<Natural>::zeroed(),
        }
    }
}

impl Clone for AuxFp12MulCols<Natural> {
    fn clone(&self) -> (r: AuxFp12MulCols<Natural>)
        ensures
            r@ == self@,
    {
        AuxFp12MulCols {
            aa: self.aa.clone(),
            bb: self.bb.clone(),
            o: self.o.clone(),
            y1: self.y1.clone(),
            y2: self.y2.clone(),
            y3: self.y3.clone(),
            y: self.y.clone(),
            x1: self.x1.clone(),
            x: self.x.clone(),
        }
    }
}

} // verus!
