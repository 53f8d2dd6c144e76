use twodb::domain::table::{
    build_base_simple_table, build_self_references_table, set_table_is_exported,
    update_row_count, update_self_referencing, ExportComplexityType, Table, TableType,
    BASE_TABLE_STR,
};
use twodb::domain::two_column::TwoColumn;
use twodb::state::WindowsState;

#[test]
fn a_default_table_is_fresh() {
    let table = Table::default();
    assert_eq!(table.id, 0);
    assert_eq!(table.name, "");
    assert_eq!(table.table_type, TableType::BaseTable);
    assert_eq!(table.export_complexity_type, ExportComplexityType::SIMPLE);
    assert_eq!(table.database, "");
    assert_eq!(table.export_order, 0);
    assert!(!table.is_self_referencing);
    assert_eq!(table.self_referencing_column, "");
    assert_eq!(table.row_count, 0);
    assert!(!table.is_exported);
}

#[test]
fn a_simple_table_is_built_from_name_and_database() {
    let table = build_base_simple_table("people".to_string(), "db".to_string());
    let expected = Table { name: "people".to_string(), database: "db".to_string(), ..Table::default() };
    assert_eq!(table, expected);
    assert_eq!(table.get_table_name_as_str(), "people");
}

#[test]
fn a_self_referencing_table_is_complex() {
    let table = build_self_references_table("tree".to_string(), "db".to_string());
    assert_eq!(table.export_complexity_type, ExportComplexityType::COMPLEX);
    assert!(table.is_self_referencing);
    assert_eq!(table.self_referencing_column, "");
    assert_eq!(table.name, "tree");
    assert_eq!(table.database, "db");
}

#[test]
fn the_export_order_counts_up() {
    let mut table = Table::default();
    table.increase_export_order();
    table.increase_export_order();
    assert_eq!(table.export_order, 2);
    assert_eq!(Table { export_order: 0, ..table.clone() }, Table::default());
}

#[test]
fn the_row_count_is_recorded() {
    let mut table = build_base_simple_table("t".to_string(), "db".to_string());
    table.update_row_count(42);
    assert_eq!(table.row_count, 42);
    update_row_count(&mut table, 7);
    assert_eq!(table.row_count, 7);
    assert_eq!(table.name, "t");
}

#[test]
fn the_first_referring_column_makes_a_table_self_referencing() {
    let mut table = build_base_simple_table("tree".to_string(), "db".to_string());
    assert!(!table.update_self_referencing(&vec![]));
    assert_eq!(table, build_base_simple_table("tree".to_string(), "db".to_string()));
    assert!(table.update_self_referencing(&vec!["parent_id".to_string(), "root_id".to_string()]));
    assert!(table.is_self_referencing);
    assert_eq!(table.self_referencing_column, "parent_id");
    assert_eq!(table.export_complexity_type, ExportComplexityType::COMPLEX);
    let mut other = build_base_simple_table("list".to_string(), "db".to_string());
    assert!(update_self_referencing(&mut other, &vec!["next".to_string()]));
    assert_eq!(other.self_referencing_column, "next");
}

#[test]
fn the_export_flag_is_carried_by_a_fresh_record() {
    let table = set_table_is_exported(&"people".to_string(), true);
    assert_eq!(
        table,
        Table { name: "people".to_string(), is_exported: true, ..Table::default() }
    );
    assert!(!set_table_is_exported(&"people".to_string(), false).is_exported);
}

#[test]
fn types_and_complexities_have_names() {
    assert_eq!(BASE_TABLE_STR, "BASE TABLE");
    assert_eq!(TableType::BaseTable.name(), "BASE TABLE");
    assert_eq!(TableType::VIEW.name(), "VIEW");
    assert_eq!(ExportComplexityType::SIMPLE.name(), "SIMPLE");
    assert_eq!(ExportComplexityType::COMPLEX.name(), "COMPLEX");
}

#[test]
fn records_and_columns_are_duplicated() {
    let table = build_self_references_table("tree".to_string(), "db".to_string());
    assert_eq!(table.duplicate(), table);
    let column = TwoColumn { name: "id".to_string(), data_type: "int8".to_string() };
    assert_eq!(column.duplicate(), column);
}

#[test]
fn windows_are_open_or_closed() {
    let state = WindowsState {
        window_move_one_table_open: true,
        window_move_all_tables_open: false,
        window_reset_open: false,
    };
    assert!(state.window_move_one_table_open);
    assert!(!state.window_move_all_tables_open);
    assert!(!state.window_reset_open);
}
