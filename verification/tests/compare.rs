use twodb::codec::CodecError;
use twodb::compare::{compare_rows, different_row_count, same_texts, Comparison};
use twodb::domain::row::{CalendarDate, Cell, CellValue, Row};

fn row(id: i64, name: Option<&str>) -> Row {
    Row {
        cells: vec![
            Cell { name: "id".to_string(), value: CellValue::Int8(Some(id)) },
            Cell { name: "name".to_string(), value: CellValue::Varchar(name.map(str::to_string)) },
        ],
    }
}

#[test]
fn different_counts_are_reported_without_looking_at_rows() {
    let bad = Row {
        cells: vec![Cell {
            name: "d".to_string(),
            value: CellValue::Date(Some(CalendarDate { days_from_ce: i32::MAX })),
        }],
    };
    assert_eq!(
        compare_rows(&vec![row(1, None), bad], &vec![row(1, None)]),
        Ok(Comparison::DifferentRowCount { source: 2, target: 1 })
    );
    assert_eq!(
        compare_rows(&vec![], &vec![row(1, None)]),
        Ok(Comparison::DifferentRowCount { source: 0, target: 1 })
    );
}

#[test]
fn rows_are_compared_place_by_place() {
    let source = vec![row(1, Some("a")), row(2, Some("b")), row(3, None), row(4, Some("d"))];
    let target = vec![row(1, Some("a")), row(2, Some("x")), row(3, None), row(5, Some("d"))];
    assert_eq!(
        compare_rows(&source, &target),
        Ok(Comparison::SameRowCount { differing: vec![1, 3] })
    );
    assert_eq!(compare_rows(&source, &source), Ok(Comparison::SameRowCount { differing: vec![] }));
    assert_eq!(compare_rows(&vec![], &vec![]), Ok(Comparison::SameRowCount { differing: vec![] }));
}

#[test]
fn an_absent_text_shows_like_the_text_none() {
    assert_eq!(
        compare_rows(&vec![row(1, None)], &vec![row(1, Some("None"))]),
        Ok(Comparison::SameRowCount { differing: vec![] })
    );
}

#[test]
fn a_row_that_cannot_be_shown_stops_the_comparison() {
    let bad = Row {
        cells: vec![Cell {
            name: "d".to_string(),
            value: CellValue::Date(Some(CalendarDate { days_from_ce: i32::MAX })),
        }],
    };
    assert_eq!(
        compare_rows(&vec![row(1, None), bad.clone()], &vec![row(2, None), row(3, None)]),
        Err(CodecError::OutOfRange)
    );
    assert_eq!(
        compare_rows(&vec![row(1, None)], &vec![bad]),
        Err(CodecError::OutOfRange)
    );
}

#[test]
fn lists_of_texts_are_the_same_when_each_text_is() {
    assert!(same_texts(&vec![], &vec![]));
    assert!(same_texts(&vec!["a".to_string(), "b".to_string()], &vec!["a".to_string(), "b".to_string()]));
    assert!(!same_texts(&vec!["a".to_string()], &vec!["a".to_string(), "b".to_string()]));
    assert!(!same_texts(&vec!["a".to_string(), "c".to_string()], &vec!["a".to_string(), "b".to_string()]));
    different_row_count();
}
