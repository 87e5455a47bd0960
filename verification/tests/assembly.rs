use readstat::DataType;
use readstat::ReadStatError;
use readstat::SourceFault;
use readstat::column::Column;
use readstat::data::ReadStatData;
use readstat::data::ReadStatPhase;
use readstat::data::Reader;
use readstat::rs::ReadStatCompress;
use readstat::rs::ReadStatEndian;
use readstat::rs::ReadStatMetadataEvent;
use readstat::rs::ReadStatVar;
use readstat::rs::ReadStatVarType;
use readstat::rs::ReadStatVarTypeClass;

fn metadata_event(row_count: i32, var_count: i32) -> ReadStatMetadataEvent {
    ReadStatMetadataEvent {
        row_count,
        var_count,
        table_name: String::from("ALL_TYPES"),
        file_label: String::new(),
        file_encoding: String::from("UTF-8"),
        version: 9,
        is64bit: 1,
        creation_time: 1641670848,
        modified_time: 1641670848,
        compression: 0,
        endianness: 1,
    }
}

fn declare(
    d: &mut ReadStatData,
    index: i32,
    var_type: ReadStatVarType,
    name: &str,
    format: &str,
) -> Result<(), ReadStatError> {
    let class = match var_type {
        ReadStatVarType::String | ReadStatVarType::StringRef => ReadStatVarTypeClass::String,
        _ => ReadStatVarTypeClass::Numeric,
    };
    d.handle_variable(
        index,
        var_type,
        class,
        String::from(name),
        String::new(),
        String::from(format),
    )
}

#[test]
fn end_to_end_full_buffer() {
    let mut d = ReadStatData::new(Reader::Mem, 100000);
    assert_eq!(d.phase, ReadStatPhase::AwaitingMetadata);
    d.handle_metadata(metadata_event(3, 2)).unwrap();
    assert_eq!(d.phase, ReadStatPhase::AwaitingVariables);
    declare(&mut d, 0, ReadStatVarType::Int32, "_int", "BEST12").unwrap();
    declare(&mut d, 1, ReadStatVarType::String, "_name", "$30").unwrap();
    assert_eq!(d.phase, ReadStatPhase::ReceivingValues);
    assert_eq!(d.schema.fields.len(), 2);
    assert_eq!(d.schema.fields[0].name, "_int");
    assert_eq!(d.schema.fields[0].data_type, DataType::Int32);
    assert_eq!(d.schema.fields[1].name, "_name");
    assert_eq!(d.schema.fields[1].data_type, DataType::Utf8);

    assert_eq!(d.handle_value(0, 0, Some(ReadStatVar::Int32(10))).unwrap(), None);
    assert_eq!(
        d.handle_value(0, 1, Some(ReadStatVar::String(String::from("a")))).unwrap(),
        None
    );
    assert_eq!(d.handle_value(1, 0, None).unwrap(), None);
    assert_eq!(
        d.handle_value(1, 1, Some(ReadStatVar::String(String::from("b")))).unwrap(),
        None
    );
    assert_eq!(d.handle_value(2, 0, Some(ReadStatVar::Int32(30))).unwrap(), None);
    let batch = d.handle_value(2, 1, None).unwrap().expect("final row must flush");
    assert_eq!(batch.num_rows, 3);
    assert_eq!(batch.columns.len(), 2);
    assert_eq!(batch.schema.fields.len(), 2);
    match &batch.columns[0] {
        Column::Int32(cells) => assert_eq!(cells, &vec![Some(10), None, Some(30)]),
        other => panic!("wrong column type: {:?}", other),
    }
    match &batch.columns[1] {
        Column::Utf8(cells) => assert_eq!(
            cells,
            &vec![Some(String::from("a")), Some(String::from("b")), None]
        ),
        other => panic!("wrong column type: {:?}", other),
    }
    assert_eq!(d.phase, ReadStatPhase::Draining);
    assert_eq!(d.finish().unwrap(), None);
    assert_eq!(d.phase, ReadStatPhase::Done);
}

#[test]
fn missing_value_keeps_position() {
    let mut d = ReadStatData::new(Reader::Mem, 100000);
    d.handle_metadata(metadata_event(3, 1)).unwrap();
    declare(&mut d, 0, ReadStatVarType::Int32, "_int", "BEST12").unwrap();
    assert_eq!(d.handle_value(0, 0, Some(ReadStatVar::Int32(7))).unwrap(), None);
    assert_eq!(d.handle_value(1, 0, None).unwrap(), None);
    let batch = d.handle_value(2, 0, Some(ReadStatVar::Int32(9))).unwrap().unwrap();
    match &batch.columns[0] {
        Column::Int32(cells) => assert_eq!(cells, &vec![Some(7), None, Some(9)]),
        other => panic!("wrong column type: {:?}", other),
    }
}

#[test]
fn zero_rows_give_schema_and_no_batch() {
    let mut d = ReadStatData::new(Reader::Mem, 100000);
    d.handle_metadata(metadata_event(0, 2)).unwrap();
    declare(&mut d, 0, ReadStatVarType::Int32, "_int", "BEST12").unwrap();
    declare(&mut d, 1, ReadStatVarType::Double, "_float", "BEST12").unwrap();
    assert_eq!(d.phase, ReadStatPhase::Draining);
    assert_eq!(d.schema.fields.len(), 2);
    assert_eq!(d.finish().unwrap(), None);
    assert_eq!(d.phase, ReadStatPhase::Done);
}

#[test]
fn streaming_chunk_boundaries() {
    let chunk: i32 = 100000;
    let rows: i32 = 250001;
    let mut d = ReadStatData::new(Reader::Stream, chunk as usize);
    d.handle_metadata(metadata_event(rows, 1)).unwrap();
    declare(&mut d, 0, ReadStatVarType::Int32, "_int", "BEST12").unwrap();
    let mut sizes: Vec<usize> = Vec::new();
    for row in 0..rows {
        if let Some(b) = d.handle_value(row, 0, Some(ReadStatVar::Int32(row))).unwrap() {
            sizes.push(b.num_rows);
        }
    }
    assert_eq!(sizes, vec![100000, 100000, 50001]);
    assert_eq!(d.phase, ReadStatPhase::Draining);
}

#[test]
fn streaming_single_row_tail() {
    let mut d = ReadStatData::new(Reader::Stream, 100000);
    d.handle_metadata(metadata_event(200001, 1)).unwrap();
    declare(&mut d, 0, ReadStatVarType::Int32, "_int", "BEST12").unwrap();
    let mut sizes: Vec<usize> = Vec::new();
    for row in 0..200001 {
        if let Some(b) = d.handle_value(row, 0, Some(ReadStatVar::Int32(1))).unwrap() {
            sizes.push(b.num_rows);
        }
    }
    assert_eq!(sizes, vec![100000, 100000, 1]);
}

#[test]
fn unknown_row_count_flushes_on_finish() {
    let mut d = ReadStatData::new(Reader::Stream, 4);
    d.handle_metadata(metadata_event(-1, 1)).unwrap();
    declare(&mut d, 0, ReadStatVarType::Int16, "_v", "").unwrap();
    let mut sizes: Vec<usize> = Vec::new();
    for row in 0..6 {
        if let Some(b) = d.handle_value(row, 0, Some(ReadStatVar::Int16(row as i16))).unwrap() {
            sizes.push(b.num_rows);
        }
    }
    assert_eq!(sizes, vec![4]);
    let tail = d.finish().unwrap().expect("buffered rows must flush");
    assert_eq!(tail.num_rows, 2);
    match &tail.columns[0] {
        Column::Int16(cells) => assert_eq!(cells, &vec![Some(4), Some(5)]),
        other => panic!("wrong column type: {:?}", other),
    }
    assert_eq!(d.phase, ReadStatPhase::Done);
}

#[test]
fn metadata_capture() {
    let mut d = ReadStatData::new(Reader::Mem, 100000);
    let mut ev = metadata_event(2000, 110);
    ev.compression = 1;
    ev.endianness = 2;
    d.handle_metadata(ev).unwrap();
    let m = d.metadata.as_ref().unwrap();
    assert_eq!(m.row_count, 2000);
    assert_eq!(m.var_count, 110);
    assert_eq!(m.table_name, "ALL_TYPES");
    assert_eq!(m.file_encoding, "UTF-8");
    assert_eq!(m.is64bit, 1);
    assert_eq!(m.creation_time, "2022-01-08 19:40:48");
    assert_eq!(m.modified_time, "2022-01-08 19:40:48");
    assert_eq!(m.compression, ReadStatCompress::Rows);
    assert_eq!(m.endianness, ReadStatEndian::Big);
}

#[test]
fn unknown_codes_fall_back() {
    let mut d = ReadStatData::new(Reader::Mem, 100000);
    let mut ev = metadata_event(1, 1);
    ev.compression = 77;
    ev.endianness = 0;
    d.handle_metadata(ev).unwrap();
    let m = d.metadata.as_ref().unwrap();
    assert_eq!(m.compression, ReadStatCompress::Unknown);
    assert_eq!(m.endianness, ReadStatEndian::Unknown);
}

#[test]
fn int8_widens_to_int16() {
    let mut d = ReadStatData::new(Reader::Mem, 100000);
    d.handle_metadata(metadata_event(1, 1)).unwrap();
    declare(&mut d, 0, ReadStatVarType::Int8, "_char", "").unwrap();
    assert_eq!(d.schema.fields[0].data_type, DataType::Int16);
    let batch = d.handle_value(0, 0, Some(ReadStatVar::Int8(-5))).unwrap().unwrap();
    match &batch.columns[0] {
        Column::Int16(cells) => assert_eq!(cells, &vec![Some(-5i16)]),
        other => panic!("wrong column type: {:?}", other),
    }
}

#[test]
fn event_out_of_phase() {
    let mut d = ReadStatData::new(Reader::Mem, 100000);
    let r = d.handle_value(0, 0, None);
    assert_eq!(
        r,
        Err(ReadStatError::SourceContractViolation(SourceFault::EventOutOfPhase))
    );
    d.handle_metadata(metadata_event(1, 1)).unwrap();
    let r2 = d.handle_metadata(metadata_event(1, 1));
    assert_eq!(
        r2,
        Err(ReadStatError::SourceContractViolation(SourceFault::EventOutOfPhase))
    );
}

#[test]
fn negative_var_count_rejected() {
    let mut d = ReadStatData::new(Reader::Mem, 100000);
    let r = d.handle_metadata(metadata_event(1, -3));
    assert_eq!(
        r,
        Err(ReadStatError::SourceContractViolation(SourceFault::InvalidVariableCount {
            declared: -3
        }))
    );
    assert_eq!(d.phase, ReadStatPhase::AwaitingMetadata);
}

#[test]
fn variable_out_of_order_rejected() {
    let mut d = ReadStatData::new(Reader::Mem, 100000);
    d.handle_metadata(metadata_event(1, 2)).unwrap();
    let r = declare(&mut d, 1, ReadStatVarType::Int32, "_int", "");
    assert_eq!(
        r,
        Err(ReadStatError::SourceContractViolation(SourceFault::VariableOutOfOrder {
            expected_index: 0,
            found_index: 1
        }))
    );
}

#[test]
fn value_out_of_order_rejected() {
    let mut d = ReadStatData::new(Reader::Mem, 100000);
    d.handle_metadata(metadata_event(2, 1)).unwrap();
    declare(&mut d, 0, ReadStatVarType::Int32, "_int", "").unwrap();
    let r = d.handle_value(1, 0, Some(ReadStatVar::Int32(1)));
    assert_eq!(
        r,
        Err(ReadStatError::SourceContractViolation(SourceFault::ValueOutOfOrder {
            expected_row: 0,
            expected_var: 0,
            found_row: 1,
            found_var: 0
        }))
    );
}

#[test]
fn value_type_mismatch_rejected() {
    let mut d = ReadStatData::new(Reader::Mem, 100000);
    d.handle_metadata(metadata_event(1, 1)).unwrap();
    declare(&mut d, 0, ReadStatVarType::Int32, "_int", "").unwrap();
    let r = d.handle_value(0, 0, Some(ReadStatVar::String(String::from("oops"))));
    assert_eq!(
        r,
        Err(ReadStatError::SourceContractViolation(SourceFault::ValueTypeMismatch {
            expected: DataType::Int32,
            found: DataType::Utf8
        }))
    );
    // A missing value is welcome in the same place whatever the types say.
    let b = d.handle_value(0, 0, None).unwrap().unwrap();
    match &b.columns[0] {
        Column::Int32(cells) => assert_eq!(cells, &vec![None]),
        other => panic!("wrong column type: {:?}", other),
    }
}

#[test]
fn schema_conflict_rejected() {
    let mut d = ReadStatData::new(Reader::Mem, 100000);
    d.handle_metadata(metadata_event(1, 2)).unwrap();
    declare(&mut d, 0, ReadStatVarType::Int32, "_int", "").unwrap();
    let r = declare(&mut d, 1, ReadStatVarType::Double, "_int", "");
    assert_eq!(r, Err(ReadStatError::SchemaConflict { existing: DataType::Int32 }));
}

#[test]
fn identical_redeclaration_is_merged() {
    let mut d = ReadStatData::new(Reader::Mem, 100000);
    d.handle_metadata(metadata_event(1, 2)).unwrap();
    declare(&mut d, 0, ReadStatVarType::Int32, "_int", "").unwrap();
    declare(&mut d, 1, ReadStatVarType::Int32, "_int", "").unwrap();
    assert_eq!(d.schema.fields.len(), 1);
    assert_eq!(d.vars.len(), 2);
    assert_eq!(d.cols.len(), 2);
}

#[test]
fn incomplete_row_on_finish_rejected() {
    let mut d = ReadStatData::new(Reader::Mem, 100000);
    d.handle_metadata(metadata_event(2, 2)).unwrap();
    declare(&mut d, 0, ReadStatVarType::Int32, "_a", "").unwrap();
    declare(&mut d, 1, ReadStatVarType::Int32, "_b", "").unwrap();
    d.handle_value(0, 0, Some(ReadStatVar::Int32(1))).unwrap();
    let r = d.finish();
    assert_eq!(
        r,
        Err(ReadStatError::SourceContractViolation(SourceFault::IncompleteRow))
    );
    // The session is untouched and the row can still be completed.
    assert_eq!(d.handle_value(0, 1, Some(ReadStatVar::Int32(2))).unwrap(), None);
}

#[test]
fn float32_bits_are_stored() {
    let mut d = ReadStatData::new(Reader::Mem, 100000);
    d.handle_metadata(metadata_event(1, 1)).unwrap();
    declare(&mut d, 0, ReadStatVarType::Float, "_float", "BEST12").unwrap();
    assert_eq!(d.schema.fields[0].data_type, DataType::Float32);
    let bits = 2.5f32.to_bits();
    let batch = d.handle_value(0, 0, Some(ReadStatVar::Float32Bits(bits))).unwrap().unwrap();
    match &batch.columns[0] {
        Column::Float32(cells) => assert_eq!(cells, &vec![Some(bits)]),
        other => panic!("wrong column type: {:?}", other),
    }
}

#[test]
fn finish_with_nothing_buffered_yields_no_batch() {
    let mut d = ReadStatData::new(Reader::Stream, 2);
    d.handle_metadata(metadata_event(-1, 1)).unwrap();
    declare(&mut d, 0, ReadStatVarType::Int32, "_int", "").unwrap();
    let mut batches: usize = 0;
    for row in 0..4 {
        if d.handle_value(row, 0, Some(ReadStatVar::Int32(row))).unwrap().is_some() {
            batches += 1;
        }
    }
    assert_eq!(batches, 2);
    assert_eq!(d.finish().unwrap(), None);
    assert_eq!(d.phase, ReadStatPhase::Done);
}

#[test]
fn metadata_capture_large_file() {
    let mut d = ReadStatData::new(Reader::Stream, 100000);
    d.handle_metadata(ReadStatMetadataEvent {
        row_count: 2000,
        var_count: 110,
        table_name: String::from("RAND_DS_LARGEPAGE_ERR"),
        file_label: String::new(),
        file_encoding: String::from("UTF-8"),
        version: 9,
        is64bit: 1,
        creation_time: 1627250522,
        modified_time: 1627250522,
        compression: 0,
        endianness: 1,
    })
    .unwrap();
    let m = d.metadata.as_ref().unwrap();
    assert_eq!(m.row_count, 2000);
    assert_eq!(m.var_count, 110);
    assert_eq!(m.table_name, "RAND_DS_LARGEPAGE_ERR");
    assert_eq!(m.file_encoding, "UTF-8");
    assert_eq!(m.version, 9);
    assert_eq!(m.creation_time, "2021-07-25 22:02:02");
    assert_eq!(m.modified_time, "2021-07-25 22:02:02");
    assert_eq!(m.compression, ReadStatCompress::Uncompressed);
    assert_eq!(m.endianness, ReadStatEndian::Little);
}
