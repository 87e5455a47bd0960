use readstat::formats::ReadStatFormatClass;
use readstat::formats::match_var_format;

#[test]
fn plain_numeric_formats_are_unclassified() {
    assert_eq!(match_var_format("BEST12"), None);
    assert_eq!(match_var_format("$30"), None);
    assert_eq!(match_var_format(""), None);
    assert_eq!(match_var_format("COMMA10"), None);
}

#[test]
fn date_formats() {
    assert_eq!(match_var_format("YYMMDD10"), Some(ReadStatFormatClass::Date));
    assert_eq!(match_var_format("DATE9"), Some(ReadStatFormatClass::Date));
    assert_eq!(match_var_format("MMDDYY8"), Some(ReadStatFormatClass::Date));
    assert_eq!(match_var_format("JULIAN"), Some(ReadStatFormatClass::Date));
}

#[test]
fn datetime_formats() {
    assert_eq!(match_var_format("DATETIME22"), Some(ReadStatFormatClass::DateTime));
    assert_eq!(match_var_format("DATETIME"), Some(ReadStatFormatClass::DateTime));
    assert_eq!(match_var_format("E8601DT"), Some(ReadStatFormatClass::DateTime));
}

#[test]
fn time_formats() {
    assert_eq!(match_var_format("TIME"), Some(ReadStatFormatClass::Time));
    assert_eq!(match_var_format("TIME8"), Some(ReadStatFormatClass::Time));
    assert_eq!(match_var_format("TOD5"), Some(ReadStatFormatClass::Time));
    assert_eq!(match_var_format("HHMM"), Some(ReadStatFormatClass::Time));
}

#[test]
fn datetime_wins_over_its_date_prefix() {
    // `DATE` is a prefix of `DATETIME22`; the longer class must win.
    assert_eq!(match_var_format("DATETIME22"), Some(ReadStatFormatClass::DateTime));
    assert_eq!(match_var_format("DATE"), Some(ReadStatFormatClass::Date));
}

#[test]
fn classification_is_pure() {
    let a = String::from("YYMMDD10");
    let b = String::from("YYMMDD10");
    assert_eq!(match_var_format(&a), match_var_format(&b));
    assert_eq!(match_var_format(&a), match_var_format(&a));
}
