use twodb::application::use_cases::fix_numeric_data::{fix_query, numeric_type, plan_fix};
use twodb::codec::CodecError;
use twodb::domain::row::{Cell, CellValue, Row};
use twodb::domain::two_column::TwoColumn;
use twodb::repair::{
    build_update_query, check_numeric_column, condition_tables_with_rows,
    get_tables_numeric_wrong_data, lookup_id, numeric_columns_of, numeric_text_query,
    prepare_update_queries,
};

fn column(name: &str, data_type: &str) -> TwoColumn {
    TwoColumn { name: name.to_string(), data_type: data_type.to_string() }
}

fn cell(name: &str, value: CellValue) -> Cell {
    Cell { name: name.to_string(), value }
}

fn priced(id: Option<i64>, price: Option<&str>, tax: Option<&str>) -> Row {
    Row {
        cells: vec![
            cell("id", CellValue::Int8(id)),
            cell("price", CellValue::Numeric(price.map(str::to_string))),
            cell("tax", CellValue::Numeric(tax.map(str::to_string))),
            cell("name", CellValue::Varchar(Some("n".to_string()))),
        ],
    }
}

#[test]
fn only_columns_declared_numeric_are_repaired() {
    let columns = vec![
        column("id", "int8"),
        column("price", "numeric"),
        column("name", "varchar"),
        column("tax", "numeric"),
        column("n", "numeric(10,2)"),
    ];
    let numeric = numeric_columns_of(&columns);
    assert_eq!(numeric, vec![column("price", "numeric"), column("tax", "numeric")]);
    assert!(check_numeric_column(&columns));
    assert!(!check_numeric_column(&vec![column("id", "int8"), column("n", "numeric(10,2)")]));
    assert!(!check_numeric_column(&vec![]));
}

#[test]
fn an_update_sets_each_column_and_finds_the_row_by_its_id() {
    let columns = vec![column("price", "numeric"), column("tax", "numeric")];
    assert_eq!(
        build_update_query("items", &columns, &priced(Some(7), Some("12.50"), None)),
        Ok("UPDATE items SET price = '12.50', tax = NULL WHERE id = 7".to_string())
    );
    assert_eq!(
        build_update_query("items", &vec![], &priced(Some(-7), None, None)),
        Ok("UPDATE items SET  WHERE id = -7".to_string())
    );
}

#[test]
fn an_update_needs_the_columns_and_the_id() {
    let columns = vec![column("price", "numeric"), column("gone", "numeric")];
    assert_eq!(
        build_update_query("items", &columns, &priced(None, Some("1"), None)),
        Err(CodecError::MissingColumn)
    );
    assert_eq!(
        build_update_query("items", &columns[..1].to_vec(), &priced(None, Some("1"), None)),
        Err(CodecError::MissingId)
    );
    let without = Row { cells: vec![cell("price", CellValue::Numeric(None))] };
    assert_eq!(
        build_update_query("items", &columns[..1].to_vec(), &without),
        Err(CodecError::MissingId)
    );
}

#[test]
fn updates_are_prepared_for_the_numeric_columns_of_both_sides() {
    let source = vec![column("id", "int8"), column("price", "numeric"), column("tax", "numeric")];
    let target = vec![column("tax", "int4"), column("price", "numeric"), column("id", "int8")];
    let rows = vec![priced(Some(1), Some("1.10"), Some("0.2")), priced(Some(2), None, None)];
    assert_eq!(
        prepare_update_queries("items", &source, &target, &rows),
        Ok(vec![
            "UPDATE items SET price = '1.10' WHERE id = 1".to_string(),
            "UPDATE items SET price = NULL WHERE id = 2".to_string(),
        ])
    );
    assert_eq!(
        prepare_update_queries("items", &source, &target, &vec![priced(None, None, None)]),
        Err(CodecError::MissingId)
    );
}

#[test]
fn the_exact_text_of_a_number_is_asked_for_by_id() {
    assert_eq!(
        numeric_text_query("price", "items", 55),
        "SELECT price::text FROM items WHERE id = 55"
    );
    assert_eq!(lookup_id(&priced(Some(55), None, None)), 55);
    assert_eq!(lookup_id(&priced(None, None, None)), 0);
    assert_eq!(lookup_id(&Row { cells: vec![] }), 0);
}

#[test]
fn the_tables_with_rows_are_selected_by_database() {
    assert_eq!(
        condition_tables_with_rows("shop"),
        "WHERE row_count > 0 AND \"database\" = 'shop'"
    );
}

#[test]
fn the_list_of_tables_is_cut_to_the_limit() {
    let tables = vec!["a".to_string(), "b".to_string(), "c".to_string()];
    assert_eq!(get_tables_numeric_wrong_data(&tables, 0), tables);
    assert_eq!(get_tables_numeric_wrong_data(&tables, 1), vec!["a".to_string()]);
    assert_eq!(get_tables_numeric_wrong_data(&tables, 2), vec!["a".to_string(), "b".to_string()]);
    assert_eq!(get_tables_numeric_wrong_data(&tables, 3), tables);
    assert_eq!(get_tables_numeric_wrong_data(&tables, 4), tables);
    assert_eq!(get_tables_numeric_wrong_data(&tables, -1), tables);
    assert_eq!(get_tables_numeric_wrong_data(&tables, i8::MAX), tables);
    assert_eq!(get_tables_numeric_wrong_data(&vec![], 2), Vec::<String>::new());
}

#[test]
fn numeric_types_are_known_by_their_names() {
    for name in [
        "smallint",
        "integer",
        "bigint",
        "decimal",
        "numeric",
        "real",
        "double precision",
        "smallserial",
        "serial",
        "bigserial",
        "numeric(10,2)",
    ] {
        assert!(numeric_type(name));
    }
    for name in ["varchar", "text", "int4", "double", "", "boolean", "date"] {
        assert!(!numeric_type(name));
    }
}

#[test]
fn a_repair_replaces_commas_by_points() {
    assert_eq!(
        fix_query("items", "price"),
        "UPDATE items SET price = REPLACE(price, ',', '.') WHERE price ~ ',' AND price !~ '[^0-9,\\.]'"
    );
    assert_eq!(
        plan_fix(
            "items",
            &vec![column("id", "integer"), column("name", "varchar"), column("p", "decimal")]
        ),
        vec![fix_query("items", "id"), fix_query("items", "p")]
    );
    assert!(plan_fix("items", &vec![column("name", "varchar")]).is_empty());
}
