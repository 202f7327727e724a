use fp12_mul::chip::decode_operand;
use fp12_mul::chip::FieldParameters;
use fp12_mul::chip::Fp12MulChip;
use fp12_mul::chip::Fp12MulEvent;
use fp12_mul::columns::ByteLookups;
use fp12_mul::columns::FieldOpCols;
use fp12_mul::memory::MemoryReadRecord;
use fp12_mul::memory::MemoryWriteRecord;
use fp12_mul::memory::WORDS_FIELD_ELEMENT;
use fp12_mul::natural::Natural;

struct Small;

impl FieldParameters for Small {
    const MODULUS: &'static [u8] = &[0x01, 0x02, 0x00];
}

fn write_record(i: u32) -> MemoryWriteRecord {
    MemoryWriteRecord {
        value: 100 + i,
        shard: 1,
        timestamp: 20 + i,
        prev_value: 200 + i,
        prev_shard: 1,
        prev_timestamp: 10 + i,
    }
}

fn read_record(i: u32) -> MemoryReadRecord {
    MemoryReadRecord {
        value: 300 + i,
        shard: 1,
        timestamp: 40 + i,
        prev_shard: 1,
        prev_timestamp: 30 + i,
    }
}

fn event(clk: u32) -> Fp12MulEvent {
    let mut x = vec![0u32; 144];
    let mut y = vec![0u32; 144];
    for i in 0..12 {
        x[12 * i] = i as u32 + 1;
        y[12 * i + 1] = i as u32;
    }
    x[12 * 11 + 11] = 7;
    Fp12MulEvent {
        lookup_id: 9,
        shard: 5,
        channel: 6,
        clk,
        x_ptr: 1000,
        x,
        y_ptr: 2000,
        y,
        x_memory_records: (0..12).map(write_record).collect(),
        y_memory_records: (0..12).map(read_record).collect(),
    }
}

#[test]
fn the_name_of_the_chip() {
    assert_eq!(Fp12MulChip::<Small>::default().name(), "Fp12Mul");
}

#[test]
fn nothing_is_preprocessed() {
    let chip = Fp12MulChip::<Small>::default();
    assert_eq!(chip.preprocessed_width(), 0);
    assert!(chip.generate_preprocessed_trace().is_none());
}

#[test]
fn a_field_element_has_twelve_words() {
    assert_eq!(WORDS_FIELD_ELEMENT, 12);
}

#[test]
fn operands_are_decoded_twelve_words_at_a_time() {
    let event = event(1);
    let x = decode_operand(&event.x);
    for i in 0..11 {
        assert_eq!(x[i], Natural::from_u32(i as u32 + 1));
    }
    assert_eq!(x[11].digits().len(), 12);
    assert_eq!(x[11].digits()[0], 12);
    assert_eq!(x[11].digits()[11], 7);
    let y = decode_operand(&event.y);
    assert_eq!(y[0], Natural::zero());
    assert_eq!(y[5].digits().as_slice(), &[0, 5]);
}

#[test]
fn words_past_the_last_coefficient_are_not_read() {
    let mut longer = event(1).x;
    longer.push(77);
    assert_eq!(decode_operand(&longer), decode_operand(&event(1).x));
}

#[test]
fn operands_with_other_words_have_other_coefficients() {
    let x = event(1).x;
    for j in [0, 11, 12, 75, 143] {
        let mut other = x.clone();
        other[j] += 1;
        assert_ne!(decode_operand(&other), decode_operand(&x));
    }
}

#[test]
fn the_row_of_a_product() {
    let chip = Fp12MulChip::<Small>::default();
    let event = event(17);
    let row = chip.populate_row(&event);
    assert_eq!(row.cols.is_real, Natural::one());
    assert_eq!(row.cols.shard, Natural::from_u32(5));
    assert_eq!(row.cols.channel, Natural::from_u32(6));
    assert_eq!(row.cols.clk, Natural::from_u32(17));
    assert_eq!(row.cols.nonce, Natural::zero());
    assert_eq!(row.cols.x_ptr, Natural::from_u32(1000));
    assert_eq!(row.cols.y_ptr, Natural::from_u32(2000));
    assert!(row.cols.output.aa.c00.a1_t_b1.operation.is_none());
    assert!(row.cols.output.x.a21_p_b21.operation.is_none());
    assert_eq!(row.x, decode_operand(&event.x));
    assert_eq!(row.y, decode_operand(&event.y));
    assert_eq!(row.constraints.shard, 5);
    assert_eq!(row.constraints.channel, 6);
    assert_eq!(row.constraints.modulus, Natural::from_u32(0x201));
}

#[test]
fn the_memory_columns_of_a_row() {
    let row = Fp12MulChip::<Small>::default().populate_row(&event(17));
    for i in 0..12 {
        let write = row.cols.x_memory_group(i).unwrap().access.unwrap();
        assert_eq!(write.channel, 6);
        assert_eq!(write.record, write_record(i as u32));
        let read = row.cols.y_memory_group(i).unwrap().access.unwrap();
        assert_eq!(read.channel, 6);
        assert_eq!(read.record, read_record(i as u32));
    }
    assert!(row.cols.x_memory_group(12).is_none());
    assert!(row.cols.y_memory_group(12).is_none());
    assert!(row.cols.x_memory_group(usize::MAX).is_none());
}

#[test]
fn writes_and_reads_are_looked_up_in_turn() {
    let row = Fp12MulChip::<Small>::default().populate_row(&event(17));
    let lookups = &row.constraints.new_byte_lookup_events;
    assert_eq!(lookups.len(), 24);
    for i in 0..12 {
        match &lookups[2 * i] {
            ByteLookups::MemoryWrite(access) => {
                assert_eq!(access.channel, 6);
                assert_eq!(access.record, write_record(i as u32));
            }
            other => panic!("not a write: {:?}", other),
        }
        match &lookups[2 * i + 1] {
            ByteLookups::MemoryRead(access) => {
                assert_eq!(access.channel, 6);
                assert_eq!(access.record, read_record(i as u32));
            }
            other => panic!("not a read: {:?}", other),
        }
    }
}

#[test]
fn operations_run_on_from_the_row() {
    let mut row = Fp12MulChip::<Small>::default().populate_row(&event(17));
    let mut dest = FieldOpCols::<Natural>::zeroed();
    let r = row.constraints.mul(&mut dest, &row.x[2], &Natural::from_u32(200));
    assert_eq!(r, Natural::from_u32(600 - 0x201));
    assert_eq!(row.constraints.new_byte_lookup_events.len(), 25);
}

#[test]
fn a_trace_has_one_row_for_each_product() {
    let chip = Fp12MulChip::<Small>::default();
    assert!(chip.generate_trace(&Vec::new()).is_empty());
    let rows = chip.generate_trace(&vec![event(1), event(2), event(3)]);
    assert_eq!(rows.len(), 3);
    for (i, row) in rows.iter().enumerate() {
        assert_eq!(row.cols.clk, Natural::from_u32(i as u32 + 1));
        assert_eq!(row.constraints.new_byte_lookup_events.len(), 24);
    }
}

#[test]
fn clones_of_rows_and_events() {
    let event = event(8);
    let copy = event.clone();
    assert_eq!((copy.lookup_id, copy.shard, copy.channel, copy.clk), (9, 5, 6, 8));
    assert_eq!((copy.x_ptr, copy.y_ptr), (1000, 2000));
    assert_eq!(copy.x, event.x);
    assert_eq!(copy.y, event.y);
    assert_eq!(copy.x_memory_records, event.x_memory_records);
    assert_eq!(copy.y_memory_records, event.y_memory_records);

    let mut row = Fp12MulChip::<Small>::default().populate_row(&event);
    let two = Natural::from_u32(2);
    row.constraints.mul(&mut row.cols.output.bb.c10.sum3, &two, &two);
    let cols = row.cols.clone();
    assert_eq!(cols.is_real, Natural::one());
    assert_eq!(cols.clk, Natural::from_u32(8));
    assert_eq!(cols.y_ptr, Natural::from_u32(2000));
    for i in 0..12 {
        assert_eq!(cols.x_memory_group(i), row.cols.x_memory_group(i));
        assert_eq!(cols.y_memory_group(i), row.cols.y_memory_group(i));
    }
    assert_eq!(cols.output.bb.c10.sum3.operation.unwrap().a, two);
}
