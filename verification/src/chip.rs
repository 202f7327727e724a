//! The chip: from the recorded products of an execution to the rows of its trace.
use core::marker::PhantomData;

use vstd::arithmetic::power::pow;
use vstd::prelude::*;

use crate::columns;
use crate::columns::AuxFp12MulCols;
use crate::columns::ByteLookups;
use crate::constraints::ConstraintsState;
use crate::constraints::Fp12MulChipConstraints;
use crate::digits;
use crate::memory;
use crate::memory::MemoryReadAccess;
use crate::memory::MemoryReadArray;
use crate::memory::MemoryReadCols;
use crate::memory::MemoryReadRecord;
use crate::memory::MemoryWriteAccess;
use crate::memory::MemoryWriteArray;
use crate::memory::MemoryWriteCols;
use crate::memory::MemoryWriteRecord;
use crate::memory::WORDS_FIELD_ELEMENT;
use crate::model;
use crate::model::Context;
use crate::natural::Natural;

verus! {

/// The parameters of a prime field.
pub trait FieldParameters {
    /// The modulus, least significant byte first.
    const MODULUS: &'static [u8];
}

/// One product of an execution.
#[derive(Debug)]
pub struct Fp12MulEvent {
    pub lookup_id: usize,
    pub shard: u32,
    pub channel: u32,
    pub clk: u32,
    /// Where the first operand lies in memory.
    pub x_ptr: u32,
    /// The words of the first operand.
    pub x: Vec<u32>,
    /// Where the second operand lies in memory.
    pub y_ptr: u32,
    /// The words of the second operand.
    pub y: Vec<u32>,
    pub x_memory_records: Vec<MemoryWriteRecord>,
    pub y_memory_records: Vec<MemoryReadRecord>,
}

impl Fp12MulEvent {
    /// Whether both operands have the words of twelve field elements, and each a record for every
    /// word of one field element.
    pub open spec fn is_complete(self) -> bool {
        &&& self.x@.len() >= 144
        &&& self.y@.len() >= 144
        &&& self.x_memory_records@.len() >= WORDS_FIELD_ELEMENT
        &&& self.y_memory_records@.len() >= WORDS_FIELD_ELEMENT
    }
}

impl Clone for Fp12MulEvent {
    fn clone(&self) -> (r: Fp12MulEvent)
        ensures
            r.lookup_id == self.lookup_id,
            r.shard == self.shard,
            r.channel == self.channel,
            r.clk == self.clk,
            r.x_ptr == self.x_ptr,
            r.x@ == self.x@,
            r.y_ptr == self.y_ptr,
            r.y@ == self.y@,
            r.x_memory_records@ == self.x_memory_records@,
            r.y_memory_records@ == self.y_memory_records@,
    {
        let r = Fp12MulEvent {
            lookup_id: self.lookup_id,
            shard: self.shard,
            channel: self.channel,
            clk: self.clk,
            x_ptr: self.x_ptr,
            x: self.x.clone(),
            y_ptr: self.y_ptr,
            y: self.y.clone(),
            x_memory_records: self.x_memory_records.clone(),
            y_memory_records: self.y_memory_records.clone(),
        };
        assert(r.x@ =~= self.x@);
        assert(r.y@ =~= self.y@);
        assert(r.x_memory_records@ =~= self.x_memory_records@);
        assert(r.y_memory_records@ =~= self.y_memory_records@);
        r
    }
}

/// The columns of one row of the trace.
#[derive(Debug)]
pub struct Fp12MulCols<T> {
    pub is_real: T,
    pub shard: T,
    pub channel: T,
    pub clk: T,
    pub nonce: T,
    pub x_ptr: T,
    pub y_ptr: T,
    pub x_memory: MemoryWriteArray,
    pub y_memory: MemoryReadArray,
    pub output: AuxFp12MulCols<T>,
}

/// One row of the trace, the operands of its product, and the state from which the operations of
/// the product run.
#[derive(Debug)]
pub struct Fp12MulRow {
    pub cols: Fp12MulCols<Natural>,
    pub x: [Natural; 12],
    pub y: [Natural; 12],
    pub constraints: Fp12MulChipConstraints,
}

/// The coefficients that the words of an operand stand for: twelve words, which are 48 bytes, each,
/// least significant word first.
pub open spec fn operand(words: Seq<u32>) -> Seq<nat> {
    Seq::new(12, |i: int| digits::digits_value(words.subrange(12 * i, 12 * (i + 1))))
}

/// The columns of the writes of the first operand.
pub open spec fn x_memory_groups(event: Fp12MulEvent) -> Seq<MemoryWriteCols> {
    Seq::new(
        WORDS_FIELD_ELEMENT as nat,
        |i: int|
            MemoryWriteCols {
                access: Some(
                    MemoryWriteAccess {
                        channel: event.channel,
                        record: event.x_memory_records@[i],
                    },
                ),
            },
    )
}

/// The columns of the reads of the second operand.
pub open spec fn y_memory_groups(event: Fp12MulEvent) -> Seq<MemoryReadCols> {
    Seq::new(
        WORDS_FIELD_ELEMENT as nat,
        |i: int|
            MemoryReadCols {
                access: Some(
                    MemoryReadAccess {
                        channel: event.channel,
                        record: event.y_memory_records@[i],
                    },
                ),
            },
    )
}

/// The lookups of the first `n` pairs of memory accesses: for each word the write, then the read.
pub open spec fn memory_lookups(event: Fp12MulEvent, n: nat) -> Seq<ByteLookups<nat>> {
    Seq::new(
        2 * n,
        |j: int|
            if j % 2 == 0 {
                ByteLookups::MemoryWrite(
                    MemoryWriteAccess {
                        channel: event.channel,
                        record: event.x_memory_records@[j / 2],
                    },
                )
            } else {
                ByteLookups::MemoryRead(
                    MemoryReadAccess {
                        channel: event.channel,
                        record: event.y_memory_records@[j / 2],
                    },
                )
            },
    )
}

/// The state from which the operations of the product of `event` run.
pub open spec fn initial_state(modulus: Seq<u8>, event: Fp12MulEvent) -> ConstraintsState {
    ConstraintsState {
        context: Context {
            shard: event.shard,
            channel: event.channel,
            modulus: digits::bytes_value(modulus),
        },
        lookups: memory_lookups(event, WORDS_FIELD_ELEMENT as nat),
    }
}

impl Fp12MulCols<Natural> {
    /// The columns of the write of word `i` of the first operand, for `i` below
    /// `WORDS_FIELD_ELEMENT`.
    pub fn x_memory_group(&self, i: usize) -> (r: Option<MemoryWriteCols>)
        ensures
            r == if i < memory::write_groups(self.x_memory).len() {
                Some(memory::write_groups(self.x_memory)[i as int])
            } else {
                None
            },
    {
        self.x_memory.get(i)
    }

    /// The columns of the read of word `i` of the second operand, for `i` below
    /// `WORDS_FIELD_ELEMENT`.
    pub fn y_memory_group(&self, i: usize) -> (r: Option<MemoryReadCols>)
        ensures
            r == if i < memory::read_groups(self.y_memory).len() {
                Some(memory::read_groups(self.y_memory)[i as int])
            } else {
                None
            },
    {
        self.y_memory.get(i)
    }
}

impl Clone for Fp12MulCols<Natural> {
    fn clone(&self) -> (r: Fp12MulCols<Natural>)
        ensures
            r.is_real@ == self.is_real@,
            r.shard@ == self.shard@,
            r.channel@ == self.channel@,
            r.clk@ == self.clk@,
            r.nonce@ == self.nonce@,
            r.x_ptr@ == self.x_ptr@,
            r.y_ptr@ == self.y_ptr@,
            memory::write_groups(r.x_memory) == memory::write_groups(self.x_memory),
            memory::read_groups(r.y_memory) == memory::read_groups(self.y_memory),
            r.output@ == self.output@,
    {
        Fp12MulCols {
            is_real: self.is_real.clone(),
            shard: self.shard.clone(),
            channel: self.channel.clone(),
            clk: self.clk.clone(),
            nonce: self.nonce.clone(),
            x_ptr: self.x_ptr.clone(),
            y_ptr: self.y_ptr.clone(),
            x_memory: self.x_memory.duplicate(),
            y_memory: self.y_memory.duplicate(),
            output: self.output.clone(),
        }
    }
}

impl Fp12MulRow {
    /// Whether this is the row of `event`.
    pub open spec fn is_row_of(self, modulus: Seq<u8>, event: Fp12MulEvent) -> bool {
        &&& self.cols.is_real@ == 1
        &&& self.cols.shard@ == event.shard
        &&& self.cols.channel@ == event.channel
        &&& self.cols.clk@ == event.clk
        &&& self.cols.nonce@ == 0
        &&& self.cols.x_ptr@ == event.x_ptr
        &&& self.cols.y_ptr@ == event.y_ptr
        &&& memory::write_groups(self.cols.x_memory) == x_memory_groups(event)
        &&& memory::read_groups(self.cols.y_memory) == y_memory_groups(event)
        &&& self.cols.output@ == AuxFp12MulCols::<nat>::blank()
        &&& model::values(self.x@) == operand(event.x@)
        &&& model::values(self.y@) == operand(event.y@)
        &&& self.constraints@ == initial_state(modulus, event)
    }
}

/// The number that the twelve words of `words` from the index `12 i` on stand for.
fn coefficient(words: &Vec<u32>, i: usize) -> (r: Natural)
    requires
        i < 12,
        words@.len() >= 144,
    ensures
        r@ == operand(words@)[i as int],
{
    let from: usize = i * WORDS_FIELD_ELEMENT;
    let slice = vstd::slice::slice_subrange(words.as_slice(), from, from + WORDS_FIELD_ELEMENT);
    let bytes = digits::words_to_bytes_le(slice);
    Natural::from_bytes_le(bytes.as_slice())
}

/// The coefficients of an operand.
pub fn decode_operand(words: &Vec<u32>) -> (r: [Natural; 12])
    requires
        words@.len() >= 144,
    ensures
        model::values(r@) == operand(words@),
{
    let r = [
        coefficient(words, 0),
        coefficient(words, 1),
        coefficient(words, 2),
        coefficient(words, 3),
        coefficient(words, 4),
        coefficient(words, 5),
        coefficient(words, 6),
        coefficient(words, 7),
        coefficient(words, 8),
        coefficient(words, 9),
        coefficient(words, 10),
        coefficient(words, 11),
    ];
    assert(model::values(r@) =~= operand(words@));
    r
}

/// Where both operands have no words past their twelve coefficients, operands that stand for the
/// same coefficients have the same words.
pub proof fn law_operand_injective(x: Seq<u32>, y: Seq<u32>)
    requires
        x.len() == 144,
        y.len() == 144,
        operand(x) == operand(y),
    ensures
        x == y,
{
    assert forall|j: int| 0 <= j < 144 implies x[j] == y[j] by {
        let i = j / 12;
        let (u, v) = (x.subrange(12 * i, 12 * (i + 1)), y.subrange(12 * i, 12 * (i + 1)));
        assert(operand(x)[i] == digits::digits_value(u));
        assert(operand(y)[i] == digits::digits_value(v));
        digits::lemma_digits_injective(u, v);
        assert(u[j - 12 * i] == x[j]);
        assert(v[j - 12 * i] == y[j]);
    }
    assert(x =~= y);
}

proof fn lemma_digits_taken(words: Seq<u32>, from: int, k: int)
    requires
        0 <= from,
        0 <= k,
        from + k + 1 <= words.len(),
    ensures
        digits::digits_value(words.subrange(from, from)) == 0,
        digits::digits_value(words.subrange(from, from + k + 1)) == digits::digits_value(
            words.subrange(from, from + k),
        ) + words[from + k] * pow(0x1_0000_0000, k as nat),
{
    let before = words.subrange(from, from + k);
    digits::law_digits_value(before, words[from + k]);
    assert(words.subrange(from, from) =~= Seq::<u32>::empty());
    assert(words.subrange(from, from + k + 1) =~= before.push(words[from + k]));
}

/// Coefficient `i` of an operand is the sum of its twelve words, each times the base to the power
/// of its place, where the first word has the place zero.
pub proof fn law_operand(words: Seq<u32>, i: int)
    requires
        words.len() >= 144,
        0 <= i < 12,
    ensures
        operand(words).len() == 12,
        operand(words)[i] == words[12 * i] + words[12 * i + 1] * 0x1_0000_0000
                + words[12 * i + 2] * pow(0x1_0000_0000, 2)
                + words[12 * i + 3] * pow(0x1_0000_0000, 3)
                + words[12 * i + 4] * pow(0x1_0000_0000, 4)
                + words[12 * i + 5] * pow(0x1_0000_0000, 5)
                + words[12 * i + 6] * pow(0x1_0000_0000, 6)
                + words[12 * i + 7] * pow(0x1_0000_0000, 7)
                + words[12 * i + 8] * pow(0x1_0000_0000, 8)
                + words[12 * i + 9] * pow(0x1_0000_0000, 9)
                + words[12 * i + 10] * pow(0x1_0000_0000, 10)
                + words[12 * i + 11] * pow(0x1_0000_0000, 11),
{
    vstd::arithmetic::power::lemma_pow0(0x1_0000_0000);
    vstd::arithmetic::power::lemma_pow1(0x1_0000_0000);
    lemma_digits_taken(words, 12 * i, 0);
    lemma_digits_taken(words, 12 * i, 1);
    lemma_digits_taken(words, 12 * i, 2);
    lemma_digits_taken(words, 12 * i, 3);
    lemma_digits_taken(words, 12 * i, 4);
    lemma_digits_taken(words, 12 * i, 5);
    lemma_digits_taken(words, 12 * i, 6);
    lemma_digits_taken(words, 12 * i, 7);
    lemma_digits_taken(words, 12 * i, 8);
    lemma_digits_taken(words, 12 * i, 9);
    lemma_digits_taken(words, 12 * i, 10);
    lemma_digits_taken(words, 12 * i, 11);
    assert(operand(words)[i] == digits::digits_value(words.subrange(12 * i, 12 * i + 12)));
}

/// What the row of an event holds, column by column: its own scalars, the accesses of its own
/// records in their order, the lookups of these accesses in turn, and its own operands.
pub proof fn law_row(row: Fp12MulRow, modulus: Seq<u8>, event: Fp12MulEvent)
    requires
        row.is_row_of(modulus, event),
    ensures
        row.cols.is_real@ == 1,
        row.cols.shard@ == event.shard,
        row.cols.channel@ == event.channel,
        row.cols.clk@ == event.clk,
        row.cols.nonce@ == 0,
        row.cols.x_ptr@ == event.x_ptr,
        row.cols.y_ptr@ == event.y_ptr,
        row.constraints.shard == event.shard,
        row.constraints.channel == event.channel,
        row.constraints.modulus@ == digits::bytes_value(modulus),
        memory::write_groups(row.cols.x_memory).len() == 12,
        memory::read_groups(row.cols.y_memory).len() == 12,
        row.constraints.new_byte_lookup_events@.len() == 24,
        forall|j: int|
            0 <= j < 12 ==> (#[trigger] memory::write_groups(row.cols.x_memory)[j]).access == Some(
                MemoryWriteAccess { channel: event.channel, record: event.x_memory_records@[j] },
            ),
        forall|j: int|
            0 <= j < 12 ==> (#[trigger] memory::read_groups(row.cols.y_memory)[j]).access == Some(
                MemoryReadAccess { channel: event.channel, record: event.y_memory_records@[j] },
            ),
        forall|j: int|
            0 <= j < 12 ==> row.constraints.new_byte_lookup_events@[2 * j] == ByteLookups::<
                Natural,
            >::MemoryWrite(
                MemoryWriteAccess {
                    channel: event.channel,
                    record: #[trigger] event.x_memory_records@[j],
                },
            ),
        forall|j: int|
            0 <= j < 12 ==> row.constraints.new_byte_lookup_events@[2 * j + 1] == ByteLookups::<
                Natural,
            >::MemoryRead(
                MemoryReadAccess {
                    channel: event.channel,
                    record: #[trigger] event.y_memory_records@[j],
                },
            ),
        forall|j: int| 0 <= j < 12 ==> (#[trigger] row.x@[j])@ == operand(event.x@)[j],
        forall|j: int| 0 <= j < 12 ==> (#[trigger] row.y@[j])@ == operand(event.y@)[j],
        row.cols.output@ == AuxFp12MulCols::<nat>::blank(),
{
    let lookups = row.constraints.new_byte_lookup_events@;
    let values = columns::lookup_values(lookups);
    assert(row.constraints@.lookups == values);
    assert(values == memory_lookups(event, 12));
    assert(lookups.len() == values.len());
    assert forall|j: int| 0 <= j < 12 implies lookups[2 * j] == ByteLookups::<
        Natural,
    >::MemoryWrite(
        MemoryWriteAccess {
            channel: event.channel,
            record: #[trigger] event.x_memory_records@[j],
        },
    ) by {
        assert(values[2 * j] == lookups[2 * j]@);
        assert((2 * j) % 2 == 0 && (2 * j) / 2 == j);
    }
    assert forall|j: int| 0 <= j < 12 implies lookups[2 * j + 1] == ByteLookups::<
        Natural,
    >::MemoryRead(
        MemoryReadAccess {
            channel: event.channel,
            record: #[trigger] event.y_memory_records@[j],
        },
    ) by {
        assert(values[2 * j + 1] == lookups[2 * j + 1]@);
        assert((2 * j + 1) % 2 == 1 && (2 * j + 1) / 2 == j);
    }
    assert forall|j: int| 0 <= j < 12 implies (#[trigger] row.x@[j])@ == operand(event.x@)[j] by {
        assert(model::values(row.x@)[j] == row.x@[j]@);
    }
    assert forall|j: int| 0 <= j < 12 implies (#[trigger] row.y@[j])@ == operand(event.y@)[j] by {
        assert(model::values(row.y@)[j] == row.y@[j]@);
    }
}

/// The statement of `law_row` as one predicate.
spec fn row_matches(row: Fp12MulRow, modulus: Seq<u8>, event: Fp12MulEvent) -> bool {
    &&& row.cols.is_real@ == 1
    &&& row.cols.shard@ == event.shard
    &&& row.cols.channel@ == event.channel
    &&& row.cols.clk@ == event.clk
    &&& row.cols.nonce@ == 0
    &&& row.cols.x_ptr@ == event.x_ptr
    &&& row.cols.y_ptr@ == event.y_ptr
    &&& row.constraints.shard == event.shard
    &&& row.constraints.channel == event.channel
    &&& row.constraints.modulus@ == digits::bytes_value(modulus)
    &&& memory::write_groups(row.cols.x_memory).len() == 12
    &&& memory::read_groups(row.cols.y_memory).len() == 12
    &&& row.constraints.new_byte_lookup_events@.len() == 24
    &&& forall|j: int|
        0 <= j < 12 ==> (#[trigger] memory::write_groups(row.cols.x_memory)[j]).access == Some(
            MemoryWriteAccess { channel: event.channel, record: event.x_memory_records@[j] },
        )
    &&& forall|j: int|
        0 <= j < 12 ==> (#[trigger] memory::read_groups(row.cols.y_memory)[j]).access == Some(
            MemoryReadAccess { channel: event.channel, record: event.y_memory_records@[j] },
        )
    &&& forall|j: int|
        0 <= j < 12 ==> row.constraints.new_byte_lookup_events@[2 * j] == ByteLookups::<
            Natural,
        >::MemoryWrite(
            MemoryWriteAccess {
                channel: event.channel,
                record: #[trigger] event.x_memory_records@[j],
            },
        )
    &&& forall|j: int|
        0 <= j < 12 ==> row.constraints.new_byte_lookup_events@[2 * j + 1] == ByteLookups::<
            Natural,
        >::MemoryRead(
            MemoryReadAccess {
                channel: event.channel,
                record: #[trigger] event.y_memory_records@[j],
            },
        )
    &&& forall|j: int| 0 <= j < 12 ==> (#[trigger] row.x@[j])@ == operand(event.x@)[j]
    &&& forall|j: int| 0 <= j < 12 ==> (#[trigger] row.y@[j])@ == operand(event.y@)[j]
}

/// Rows tell their events apart: events whose rows agree in a column agree in what that column is
/// for.
pub proof fn law_rows_tell_events_apart(
    row: Fp12MulRow,
    event: Fp12MulEvent,
    other_row: Fp12MulRow,
    other: Fp12MulEvent,
    modulus: Seq<u8>,
)
    requires
        row.is_row_of(modulus, event),
        other_row.is_row_of(modulus, other),
    ensures
        row.cols.shard@ == other_row.cols.shard@ ==> event.shard == other.shard,
        row.cols.channel@ == other_row.cols.channel@ ==> event.channel == other.channel,
        row.cols.clk@ == other_row.cols.clk@ ==> event.clk == other.clk,
        row.cols.x_ptr@ == other_row.cols.x_ptr@ ==> event.x_ptr == other.x_ptr,
        row.cols.y_ptr@ == other_row.cols.y_ptr@ ==> event.y_ptr == other.y_ptr,
        memory::write_groups(row.cols.x_memory) == memory::write_groups(other_row.cols.x_memory)
            ==> forall|j: int|
            0 <= j < 12 ==> #[trigger] event.x_memory_records@[j] == other.x_memory_records@[j],
        memory::read_groups(row.cols.y_memory) == memory::read_groups(other_row.cols.y_memory)
            ==> forall|j: int|
            0 <= j < 12 ==> #[trigger] event.y_memory_records@[j] == other.y_memory_records@[j],
        event.x@.len() == 144 && other.x@.len() == 144 && model::values(row.x@) == model::values(
            other_row.x@,
        ) ==> event.x@ == other.x@,
        event.y@.len() == 144 && other.y@.len() == 144 && model::values(row.y@) == model::values(
            other_row.y@,
        ) ==> event.y@ == other.y@,
{
    let (w, v) = (
        memory::write_groups(row.cols.x_memory),
        memory::write_groups(other_row.cols.x_memory),
    );
    if w == v {
        assert forall|j: int| 0 <= j < 12 implies #[trigger] event.x_memory_records@[j]
            == other.x_memory_records@[j] by {
            assert(w[j] == v[j]);
        }
    }
    let (w, v) = (
        memory::read_groups(row.cols.y_memory),
        memory::read_groups(other_row.cols.y_memory),
    );
    if w == v {
        assert forall|j: int| 0 <= j < 12 implies #[trigger] event.y_memory_records@[j]
            == other.y_memory_records@[j] by {
            assert(w[j] == v[j]);
        }
    }
    if event.x@.len() == 144 && other.x@.len() == 144 && operand(event.x@) == operand(other.x@) {
        law_operand_injective(event.x@, other.x@);
    }
    if event.y@.len() == 144 && other.y@.len() == 144 && operand(event.y@) == operand(other.y@) {
        law_operand_injective(event.y@, other.y@);
    }
}

/// The chip that lays out products in a twelfth degree extension of the field `P`.
pub struct Fp12MulChip<P> {
    _marker: PhantomData<P>,
}

impl<P> Default for Fp12MulChip<P> {
    fn default() -> Fp12MulChip<P> {
        Fp12MulChip { _marker: PhantomData }
    }
}

impl<P: FieldParameters> Fp12MulChip<P> {
    /// The name of the chip.
    pub fn name(&self) -> (r: String)
        ensures
            r@ == "Fp12Mul"@,
    {
        "Fp12Mul".to_string()
    }

    /// The row of one product.
    pub fn populate_row(&self, event: &Fp12MulEvent) -> (r: Fp12MulRow)
        requires
            event.is_complete(),
        ensures
            r.is_row_of(P::MODULUS@, *event),
            r.cols.is_real@ == 1,
            r.cols.shard@ == event.shard,
            r.cols.channel@ == event.channel,
            r.cols.clk@ == event.clk,
            r.cols.nonce@ == 0,
            r.cols.x_ptr@ == event.x_ptr,
            r.cols.y_ptr@ == event.y_ptr,
            r.constraints.shard == event.shard,
            r.constraints.channel == event.channel,
            r.constraints.modulus@ == digits::bytes_value(P::MODULUS@),
            r.cols.output@ == AuxFp12MulCols::<nat>::blank(),
            memory::write_groups(r.cols.x_memory).len() == 12,
            memory::read_groups(r.cols.y_memory).len() == 12,
            r.constraints.new_byte_lookup_events@.len() == 24,
            forall|j: int|
                0 <= j < 12 ==> (#[trigger] memory::write_groups(r.cols.x_memory)[j]).access
                    == Some(
                    MemoryWriteAccess {
                        channel: event.channel,
                        record: event.x_memory_records@[j],
                    },
                ),
            forall|j: int|
                0 <= j < 12 ==> (#[trigger] memory::read_groups(r.cols.y_memory)[j]).access == Some(
                    MemoryReadAccess { channel: event.channel, record: event.y_memory_records@[j] },
                ),
            forall|j: int|
                0 <= j < 12 ==> r.constraints.new_byte_lookup_events@[2 * j] == ByteLookups::<
                    Natural,
                >::MemoryWrite(
                    MemoryWriteAccess {
                        channel: event.channel,
                        record: #[trigger] event.x_memory_records@[j],
                    },
                ),
            forall|j: int|
                0 <= j < 12 ==> r.constraints.new_byte_lookup_events@[2 * j + 1] == ByteLookups::<
                    Natural,
                >::MemoryRead(
                    MemoryReadAccess {
                        channel: event.channel,
                        record: #[trigger] event.y_memory_records@[j],
                    },
                ),
            forall|j: int| 0 <= j < 12 ==> (#[trigger] r.x@[j])@ == operand(event.x@)[j],
            forall|j: int| 0 <= j < 12 ==> (#[trigger] r.y@[j])@ == operand(event.y@)[j],
    {
        let x = decode_operand(&event.x);
        let y = decode_operand(&event.y);
        let modulus = Natural::from_bytes_le(P::MODULUS);

        let mut new_byte_lookup_events: Vec<ByteLookups<Natural>> = Vec::new();
        let mut x_memory = MemoryWriteArray::filled(MemoryWriteCols { access: None });
        let mut y_memory = MemoryReadArray::filled(MemoryReadCols { access: None });
        let mut i: usize = 0;
        while i < WORDS_FIELD_ELEMENT
            invariant
                i <= WORDS_FIELD_ELEMENT,
                event.is_complete(),
                memory::write_groups(x_memory).len() == 12,
                memory::read_groups(y_memory).len() == 12,
                forall|j: int|
                    0 <= j < i ==> memory::write_groups(x_memory)[j] == x_memory_groups(*event)[j],
                forall|j: int|
                    0 <= j < i ==> memory::read_groups(y_memory)[j] == y_memory_groups(*event)[j],
                columns::lookup_values(new_byte_lookup_events@) == memory_lookups(
                    *event,
                    i as nat,
                ),
            decreases WORDS_FIELD_ELEMENT - i,
        {
            let mut write = MemoryWriteCols { access: None };
            write.populate(event.channel, event.x_memory_records[i], &mut new_byte_lookup_events);
            x_memory.set(i, write);
            let mut read = MemoryReadCols { access: None };
            read.populate(event.channel, event.y_memory_records[i], &mut new_byte_lookup_events);
            y_memory.set(i, read);
            i = i + 1;
            assert(columns::lookup_values(new_byte_lookup_events@) =~= memory_lookups(
                *event,
                i as nat,
            ));
        }
        proof {
            assert(memory::write_groups(x_memory) =~= x_memory_groups(*event));
            assert(memory::read_groups(y_memory) =~= y_memory_groups(*event));
        }

        let cols = Fp12MulCols {
            is_real: Natural::one(),
            shard: Natural::from_u32(event.shard),
            channel: Natural::from_u32(event.channel),
            clk: Natural::from_u32(event.clk),
            nonce: Natural::zero(),
            x_ptr: Natural::from_u32(event.x_ptr),
            y_ptr: Natural::from_u32(event.y_ptr),
            x_memory,
            y_memory,
            output: AuxFp12MulCols::<Natural>::zeroed(),
        };
        let constraints = Fp12MulChipConstraints::new(
            event.shard,
            event.channel,
            new_byte_lookup_events,
            modulus,
        );
        let row = Fp12MulRow { cols, x, y, constraints };
        proof {
            law_row(row, P::MODULUS@, *event);
        }
        row
    }

    /// The rows of the products of an execution, in order.
    pub fn generate_trace(&self, fp12_mul_events: &Vec<Fp12MulEvent>) -> (rows: Vec<Fp12MulRow>)
        requires
            forall|i: int|
                0 <= i < fp12_mul_events@.len() ==> (#[trigger] fp12_mul_events@[i]).is_complete(),
        ensures
            rows@.len() == fp12_mul_events@.len(),
            forall|i: int|
                0 <= i < rows@.len() ==> (#[trigger] rows@[i]).is_row_of(
                    P::MODULUS@,
                    fp12_mul_events@[i],
                ),
            forall|i: int|
                0 <= i < rows@.len() ==> (#[trigger] rows@[i]).cols.is_real@ == 1,
            forall|i: int|
                0 <= i < rows@.len() ==> (#[trigger] rows@[i]).cols.shard@
                    == fp12_mul_events@[i].shard,
            forall|i: int|
                0 <= i < rows@.len() ==> (#[trigger] rows@[i]).cols.channel@
                    == fp12_mul_events@[i].channel,
            forall|i: int|
                0 <= i < rows@.len() ==> (#[trigger] rows@[i]).cols.clk@ == fp12_mul_events@[i].clk,
            forall|i: int|
                0 <= i < rows@.len() ==> (#[trigger] rows@[i]).cols.nonce@ == 0,
            forall|i: int|
                0 <= i < rows@.len() ==> (#[trigger] rows@[i]).cols.x_ptr@
                    == fp12_mul_events@[i].x_ptr,
            forall|i: int|
                0 <= i < rows@.len() ==> (#[trigger] rows@[i]).cols.y_ptr@
                    == fp12_mul_events@[i].y_ptr,
            forall|i: int|
                0 <= i < rows@.len() ==> (#[trigger] rows@[i]).constraints.shard
                    == fp12_mul_events@[i].shard,
            forall|i: int|
                0 <= i < rows@.len() ==> (#[trigger] rows@[i]).constraints.channel
                    == fp12_mul_events@[i].channel,
            forall|i: int|
                0 <= i < rows@.len() ==> (#[trigger] rows@[i]).constraints.modulus@
                    == digits::bytes_value(P::MODULUS@),
            forall|i: int|
                0 <= i < rows@.len() ==> (#[trigger] rows@[i]).cols.output@
                    == AuxFp12MulCols::<nat>::blank(),
            forall|i: int|
                0 <= i < rows@.len() ==> memory::write_groups(
                    (#[trigger] rows@[i]).cols.x_memory,
                ).len() == 12,
            forall|i: int|
                0 <= i < rows@.len() ==> memory::read_groups(
                    (#[trigger] rows@[i]).cols.y_memory,
                ).len() == 12,
            forall|i: int|
                0 <= i < rows@.len() ==> (
                #[trigger] rows@[i]).constraints.new_byte_lookup_events@.len() == 24,
            forall|i: int, j: int|
                0 <= i < rows@.len() && 0 <= j < 12 ==> (#[trigger] memory::write_groups(
                    rows@[i].cols.x_memory,
                )[j]).access == Some(
                    MemoryWriteAccess {
                        channel: fp12_mul_events@[i].channel,
                        record: fp12_mul_events@[i].x_memory_records@[j],
                    },
                ),
            forall|i: int, j: int|
                0 <= i < rows@.len() && 0 <= j < 12 ==> (#[trigger] memory::read_groups(
                    rows@[i].cols.y_memory,
                )[j]).access == Some(
                    MemoryReadAccess {
                        channel: fp12_mul_events@[i].channel,
                        record: fp12_mul_events@[i].y_memory_records@[j],
                    },
                ),
            forall|i: int, j: int|
                0 <= i < rows@.len() && 0 <= j < 12
                    ==> rows@[i].constraints.new_byte_lookup_events@[2 * j] == ByteLookups::<
                    Natural,
                >::MemoryWrite(
                    MemoryWriteAccess {
                        channel: fp12_mul_events@[i].channel,
                        record: #[trigger] fp12_mul_events@[i].x_memory_records@[j],
                    },
                ),
            forall|i: int, j: int|
                0 <= i < rows@.len() && 0 <= j < 12
                    ==> rows@[i].constraints.new_byte_lookup_events@[2 * j + 1] == ByteLookups::<
                    Natural,
                >::MemoryRead(
                    MemoryReadAccess {
                        channel: fp12_mul_events@[i].channel,
                        record: #[trigger] fp12_mul_events@[i].y_memory_records@[j],
                    },
                ),
            forall|i: int, j: int|
                0 <= i < rows@.len() && 0 <= j < 12 ==> (#[trigger] rows@[i].x@[j])@ == operand(
                    fp12_mul_events@[i].x@,
                )[j],
            forall|i: int, j: int|
                0 <= i < rows@.len() && 0 <= j < 12 ==> (#[trigger] rows@[i].y@[j])@ == operand(
                    fp12_mul_events@[i].y@,
                )[j],
    {
        let mut rows: Vec<Fp12MulRow> = Vec::new();
        let mut i: usize = 0;
        while i < fp12_mul_events.len()
            invariant
                i <= fp12_mul_events@.len(),
                rows@.len() == i,
                forall|j: int|
                    0 <= j < fp12_mul_events@.len() ==> (
                    #[trigger] fp12_mul_events@[j]).is_complete(),
                forall|j: int|
                    0 <= j < i ==> (#[trigger] rows@[j]).is_row_of(
                        P::MODULUS@,
                        fp12_mul_events@[j],
                    ),
            decreases fp12_mul_events@.len() - i,
        {
            let row = self.populate_row(&fp12_mul_events[i]);
            rows.push(row);
            i = i + 1;
        }
        proof {
            assert forall|j: int| 0 <= j < rows@.len() implies row_matches(
                #[trigger] rows@[j],
                P::MODULUS@,
                fp12_mul_events@[j],
            ) by {
                law_row(rows@[j], P::MODULUS@, fp12_mul_events@[j]);
            }
        }
        rows
    }

    /// The number of preprocessed columns: the chip has none.
    pub fn preprocessed_width(&self) -> (r: usize)
        ensures
            r == 0,
    {
        0
    }

    /// The cells of the preprocessed trace, row after row: the chip has none.
    pub fn generate_preprocessed_trace(&self) -> (r: Option<Vec<Natural>>)
        ensures
            r is None,
    {
        None
    }
}

} // verus!
