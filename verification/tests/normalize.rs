use readstat::column::Column;
use readstat::data::ReadStatData;
use readstat::data::Reader;
use readstat::normalize::DIGITS;
use readstat::normalize::truncate_precision;
use readstat::rs::ReadStatMetadataEvent;
use readstat::rs::ReadStatVar;
use readstat::rs::ReadStatVarType;
use readstat::rs::ReadStatVarTypeClass;

fn normalize_f64(x: f64) -> f64 {
    lexical::parse::<f64, _>(truncate_precision(&lexical::to_string(x))).unwrap()
}

fn normalize_f32(x: f32) -> f32 {
    lexical::parse::<f32, _>(truncate_precision(&lexical::to_string(x))).unwrap()
}

#[test]
fn truncation_keeps_short_renderings() {
    assert_eq!(truncate_precision("3.14"), "3.14");
    assert_eq!(truncate_precision(""), "");
    assert_eq!(truncate_precision("12345678901234"), "12345678901234");
}

#[test]
fn truncation_cuts_to_fourteen_characters() {
    assert_eq!(DIGITS, 14);
    assert_eq!(truncate_precision("1.234567890123456789"), "1.234567890123");
    assert_eq!(truncate_precision("123456789012345"), "12345678901234");
}

#[test]
fn normalization_is_stable() {
    let samples: [f64; 5] = [
        1.0 / 3.0,
        2.0_f64.sqrt(),
        123456.789012345678,
        -0.000123456789012345,
        42.0,
    ];
    for &x in samples.iter() {
        let once = normalize_f64(x);
        let again = normalize_f64(x);
        assert_eq!(once.to_bits(), again.to_bits(), "same input, same stored value");
        let renormalized = normalize_f64(once);
        assert_eq!(once.to_bits(), renormalized.to_bits(), "stored values are fixed points");
    }
    let f = normalize_f32(1.0_f32 / 3.0_f32);
    assert_eq!(f.to_bits(), normalize_f32(1.0_f32 / 3.0_f32).to_bits());
}

#[test]
fn float_bits_pass_through_columns_untouched() {
    let mut d = ReadStatData::new(Reader::Mem, 100000);
    d.handle_metadata(ReadStatMetadataEvent {
        row_count: 1,
        var_count: 1,
        table_name: String::new(),
        file_label: String::new(),
        file_encoding: String::new(),
        version: 9,
        is64bit: 0,
        creation_time: 0,
        modified_time: 0,
        compression: 0,
        endianness: 1,
    })
    .unwrap();
    d.handle_variable(
        0,
        ReadStatVarType::Double,
        ReadStatVarTypeClass::Numeric,
        String::from("_float"),
        String::new(),
        String::from("BEST12"),
    )
    .unwrap();
    let stored = normalize_f64(1.0 / 3.0);
    let batch = d
        .handle_value(0, 0, Some(ReadStatVar::Float64Bits(stored.to_bits())))
        .unwrap()
        .unwrap();
    match &batch.columns[0] {
        Column::Float64(cells) => {
            assert_eq!(cells, &vec![Some(stored.to_bits())]);
            assert_eq!(f64::from_bits(cells[0].unwrap()), stored);
        },
        other => panic!("wrong column type: {:?}", other),
    }
}
