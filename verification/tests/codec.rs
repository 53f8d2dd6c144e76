use twodb::codec::{
    column_kind, get_cell_value_by_column_name, get_cells, literal, row_id, CodecError, ColumnKind,
};
use twodb::domain::row::{CalendarDate, Cell, CellValue, Literal, Row, Timestamp};

fn text_of(literal: Literal) -> Option<String> {
    match literal {
        Literal::Null => None,
        Literal::Value(text) => Some(text),
    }
}

#[test]
fn type_tags_are_classified() {
    assert_eq!(column_kind("int8"), ColumnKind::Int8);
    assert_eq!(column_kind("int4"), ColumnKind::Int4);
    assert_eq!(column_kind("varchar"), ColumnKind::Varchar);
    assert_eq!(column_kind("bool"), ColumnKind::Bool);
    assert_eq!(column_kind("timestamp"), ColumnKind::Timestamp);
    assert_eq!(column_kind("numeric"), ColumnKind::Numeric);
    assert_eq!(column_kind("text"), ColumnKind::Text);
    assert_eq!(column_kind("date"), ColumnKind::Date);
    assert_eq!(column_kind("jsonb"), ColumnKind::Unknown);
    assert_eq!(column_kind(""), ColumnKind::Unknown);
}

#[test]
fn integers_are_written_in_decimal() {
    assert_eq!(text_of(literal(&CellValue::Int8(Some(0))).unwrap()), Some("0".to_string()));
    assert_eq!(text_of(literal(&CellValue::Int8(Some(55))).unwrap()), Some("55".to_string()));
    assert_eq!(text_of(literal(&CellValue::Int8(Some(-7))).unwrap()), Some("-7".to_string()));
    assert_eq!(
        text_of(literal(&CellValue::Int8(Some(i64::MIN))).unwrap()),
        Some(i64::MIN.to_string())
    );
    assert_eq!(
        text_of(literal(&CellValue::Int8(Some(i64::MAX))).unwrap()),
        Some(i64::MAX.to_string())
    );
    assert_eq!(
        text_of(literal(&CellValue::Int4(Some(i32::MIN))).unwrap()),
        Some(i32::MIN.to_string())
    );
    assert_eq!(text_of(literal(&CellValue::Int4(Some(1200))).unwrap()), Some("1200".to_string()));
}

#[test]
fn instants_are_written_as_rfc3339() {
    let epoch = CellValue::Timestamp(Some(Timestamp { secs: 0, nanos: 0 }));
    assert_eq!(text_of(literal(&epoch).unwrap()), Some("1970-01-01T00:00:00+00:00".to_string()));
    let later = CellValue::Timestamp(Some(Timestamp { secs: 1431648000, nanos: 500_000_000 }));
    assert_eq!(
        text_of(literal(&later).unwrap()),
        Some("2015-05-15T00:00:00.500+00:00".to_string())
    );
}

#[test]
fn an_instant_out_of_range_is_an_error() {
    let far = CellValue::Timestamp(Some(Timestamp { secs: i64::MAX, nanos: 0 }));
    assert_eq!(literal(&far).err(), Some(CodecError::OutOfRange));
}

#[test]
fn days_are_written_as_calendar_dates() {
    let day = CellValue::Date(Some(CalendarDate { days_from_ce: 719_163 }));
    assert_eq!(text_of(literal(&day).unwrap()), Some("1970-01-01".to_string()));
    let other = CellValue::Date(Some(CalendarDate { days_from_ce: 730_000 }));
    assert_eq!(text_of(literal(&other).unwrap()), Some("1999-09-03".to_string()));
    let far = CellValue::Date(Some(CalendarDate { days_from_ce: 100_000_000 }));
    assert_eq!(literal(&far).err(), Some(CodecError::OutOfRange));
}

#[test]
fn a_missing_column_is_an_error() {
    let row = Row { cells: vec![Cell { name: "id".to_string(), value: CellValue::Int8(Some(1)) }] };
    assert_eq!(
        get_cell_value_by_column_name(&row, "name").err(),
        Some(CodecError::MissingColumn)
    );
    assert_eq!(
        text_of(get_cell_value_by_column_name(&row, "id").unwrap()),
        Some("1".to_string())
    );
}

#[test]
fn absent_values_give_the_null_marker() {
    for value in [
        CellValue::Int8(None),
        CellValue::Int4(None),
        CellValue::Varchar(None),
        CellValue::Bool(None),
        CellValue::Timestamp(None),
        CellValue::Numeric(None),
        CellValue::Text(None),
        CellValue::Date(None),
    ] {
        assert_eq!(literal(&value), Ok(Literal::Null));
    }
}

#[test]
fn the_empty_text_and_the_text_null_are_no_markers() {
    assert_eq!(
        literal(&CellValue::Varchar(Some(String::new()))),
        Ok(Literal::Value(String::new()))
    );
    assert_eq!(
        literal(&CellValue::Text(Some("NULL".to_string()))),
        Ok(Literal::Value("NULL".to_string()))
    );
}

#[test]
fn truth_values_texts_and_numbers_are_written_as_they_are() {
    assert_eq!(literal(&CellValue::Bool(Some(true))), Ok(Literal::Value("true".to_string())));
    assert_eq!(literal(&CellValue::Bool(Some(false))), Ok(Literal::Value("false".to_string())));
    assert_eq!(
        literal(&CellValue::Numeric(Some("12.50".to_string()))),
        Ok(Literal::Value("12.50".to_string()))
    );
    assert_eq!(
        literal(&CellValue::Text(Some("it's".to_string()))),
        Ok(Literal::Value("it's".to_string()))
    );
}

#[test]
fn an_unknown_type_gives_the_sentinel() {
    assert_eq!(literal(&CellValue::Unknown), Ok(Literal::Value("Unknown".to_string())));
}

#[test]
fn the_first_cell_of_a_name_is_taken() {
    let row = Row {
        cells: vec![
            Cell { name: "a".to_string(), value: CellValue::Int4(Some(1)) },
            Cell { name: "b".to_string(), value: CellValue::Int4(Some(2)) },
            Cell { name: "a".to_string(), value: CellValue::Int4(Some(3)) },
        ],
    };
    assert_eq!(get_cell_value_by_column_name(&row, "a"), Ok(Literal::Value("1".to_string())));
    assert_eq!(get_cell_value_by_column_name(&row, "b"), Ok(Literal::Value("2".to_string())));
}

#[test]
fn cells_are_shown_with_their_names() {
    let row = Row {
        cells: vec![
            Cell { name: "id".to_string(), value: CellValue::Int8(Some(7)) },
            Cell { name: "n".to_string(), value: CellValue::Int4(None) },
            Cell { name: "name".to_string(), value: CellValue::Varchar(Some("ann".to_string())) },
            Cell { name: "nick".to_string(), value: CellValue::Varchar(None) },
            Cell { name: "ok".to_string(), value: CellValue::Bool(Some(true)) },
            Cell { name: "no".to_string(), value: CellValue::Bool(None) },
            Cell {
                name: "at".to_string(),
                value: CellValue::Timestamp(Some(Timestamp { secs: 86_400, nanos: 5 })),
            },
            Cell { name: "never".to_string(), value: CellValue::Timestamp(None) },
            Cell {
                name: "day".to_string(),
                value: CellValue::Date(Some(CalendarDate { days_from_ce: 730_000 })),
            },
            Cell { name: "no_day".to_string(), value: CellValue::Date(None) },
            Cell { name: "sum".to_string(), value: CellValue::Numeric(Some("1.5".to_string())) },
            Cell { name: "note".to_string(), value: CellValue::Text(Some("x".to_string())) },
            Cell { name: "blob".to_string(), value: CellValue::Unknown },
        ],
    };
    assert_eq!(
        get_cells(&row),
        Ok(vec![
            "id: 7".to_string(),
            "n: 0".to_string(),
            "name: ann".to_string(),
            "nick: None".to_string(),
            "ok: true".to_string(),
            "no: false".to_string(),
            "at: 86400".to_string(),
            "never: 0".to_string(),
            "day: 1999-09-03".to_string(),
            "no_day: 1970-01-01".to_string(),
            "sum: Unknown".to_string(),
            "note: Unknown".to_string(),
            "blob: Unknown".to_string(),
        ])
    );
    assert_eq!(get_cells(&Row { cells: vec![] }), Ok(vec![]));
}

#[test]
fn a_day_out_of_range_cannot_be_shown() {
    let row = Row {
        cells: vec![Cell {
            name: "day".to_string(),
            value: CellValue::Date(Some(CalendarDate { days_from_ce: i32::MAX })),
        }],
    };
    assert_eq!(get_cells(&row), Err(CodecError::OutOfRange));
}

#[test]
fn the_id_of_a_row_is_its_integer_under_id() {
    let with = Row { cells: vec![Cell { name: "id".to_string(), value: CellValue::Int8(Some(9)) }] };
    let null = Row { cells: vec![Cell { name: "id".to_string(), value: CellValue::Int8(None) }] };
    let narrow =
        Row { cells: vec![Cell { name: "id".to_string(), value: CellValue::Int4(Some(9)) }] };
    assert_eq!(row_id(&with), Some(9));
    assert_eq!(row_id(&null), None);
    assert_eq!(row_id(&narrow), None);
    assert_eq!(row_id(&Row { cells: vec![] }), None);
}
