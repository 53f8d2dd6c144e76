use std::rc::Rc;

use twodb::adapters::controllers::knowledge_controller::KnowledgeController;
use twodb::adapters::controllers::table_controller::TableController;
use twodb::adapters::gateways::postgres_table_gateway::{
    describe_connection_failure, PostgresTableGateway,
};
use twodb::adapters::gateways::sqlite_knowledge_gateway::SqliteKnowledgeGateway;
use twodb::adapters::presenters::knowledge_presenter::{
    status_of, KnowledgePresenter, KnowledgeSummaryViewModel,
};
use twodb::adapters::presenters::table_presenter::TablePresenter;
use twodb::application::repositories::table_repository::TableRepository;
use twodb::application::use_cases::fix_numeric_data::FixNumericDataService;
use twodb::application::use_cases::move_table_data::{MoveTableDataService, MAX_DEPENDENCY_DEPTH};
use twodb::application::use_cases::update_empty_tables_knowledge::{
    upkeep_for, Scan, UpdateEmptyTablesKnowledgeService, Upkeep,
};
use twodb::domain::row::{Cell, CellValue, Row};
use twodb::domain::table::{build_base_simple_table, ExportComplexityType, Table};
use twodb::domain::two_column::TwoColumn;
use twodb::engine::{Request, Response};

fn tables() -> TableController<PostgresTableGateway> {
    TableController::new(PostgresTableGateway::new("postgresql://localhost".to_string()))
}

fn knowledge() -> KnowledgeController<SqliteKnowledgeGateway> {
    KnowledgeController::new(SqliteKnowledgeGateway::new("twodb.db".to_string()))
}

fn plain(id: i64, name: &str, database: &str) -> Table {
    Table { id, ..build_base_simple_table(name.to_string(), database.to_string()) }
}

#[test]
fn the_table_gateway_answers_from_memory() {
    let controller = tables();
    assert_eq!(controller.table_repository.connection_string, "postgresql://localhost");
    assert_eq!(controller.table_repository.connect(), Ok(()));
    assert_eq!(controller.get_table("db", "people"), Ok(plain(1, "people", "db")));
    assert_eq!(
        controller.get_all_tables("db"),
        Ok(vec![plain(1, "table1", "db"), plain(2, "table2", "db")])
    );
    assert_eq!(controller.get_empty_tables("db"), Ok(vec![plain(1, "empty_table1", "db")]));
    assert_eq!(controller.get_clean_tables("db"), Ok(vec![plain(1, "clean_table1", "db")]));
    assert_eq!(
        controller.get_self_referencing_tables("db"),
        Ok(vec![Table {
            export_complexity_type: ExportComplexityType::COMPLEX,
            is_self_referencing: true,
            self_referencing_column: "parent_id".to_string(),
            row_count: 10,
            ..plain(1, "self_ref_table1", "db")
        }])
    );
    assert_eq!(controller.update_table(&plain(1, "t", "db")), Ok(()));
    assert_eq!(controller.insert_table(&plain(1, "t", "db")), Ok(()));
    assert_eq!(controller.table_exists(&plain(1, "t", "db")), Ok(true));
    assert_eq!(
        controller.get_columns("db", "t"),
        Ok(vec![
            TwoColumn { name: "id".to_string(), data_type: "integer".to_string() },
            TwoColumn { name: "name".to_string(), data_type: "varchar".to_string() },
        ])
    );
    let row = |id: i32, name: &str| Row {
        cells: vec![
            Cell { name: "id".to_string(), value: CellValue::Int4(Some(id)) },
            Cell { name: "name".to_string(), value: CellValue::Varchar(Some(name.to_string())) },
        ],
    };
    assert_eq!(controller.get_rows("db", "t"), Ok(vec![row(1, "Row 1"), row(2, "Row 2")]));
    assert_eq!(controller.execute_query("db", "SELECT 1"), Ok(()));
    assert_eq!(controller.move_table_data("a", "t", "b", "t"), Ok(()));
}

#[test]
fn the_knowledge_gateway_answers_from_memory() {
    let controller = knowledge();
    assert_eq!(controller.knowledge_repository.db_path, "twodb.db");
    assert_eq!(controller.knowledge_repository.connect(), Ok(()));
    assert_eq!(controller.get_table_knowledge("db", "people"), Ok(plain(1, "people", "db")));
    assert_eq!(controller.update_table_knowledge(&plain(1, "t", "db")), Ok(()));
    let mut table = plain(1, "t", "db");
    assert_eq!(controller.update_row_count(&mut table), Ok(()));
    assert_eq!(table, Table { row_count: 10, ..plain(1, "t", "db") });
    assert_eq!(controller.update_self_referencing(&mut table, "db"), Ok(()));
    assert_eq!(
        table,
        Table {
            row_count: 10,
            is_self_referencing: true,
            export_complexity_type: ExportComplexityType::COMPLEX,
            self_referencing_column: "parent_id".to_string(),
            ..plain(1, "t", "db")
        }
    );
    assert_eq!(controller.update_export_status("t", true), Ok(()));
    let exported = controller.get_exported_tables().unwrap();
    assert_eq!(
        exported,
        vec![
            Table { export_order: 1, row_count: 10, is_exported: true, ..plain(1, "exported_table1", "database1") },
            Table { export_order: 2, row_count: 20, is_exported: true, ..plain(2, "exported_table2", "database1") },
        ]
    );
    let waiting = controller.get_non_exported_tables().unwrap();
    assert_eq!(
        waiting,
        vec![
            Table { row_count: 5, ..plain(3, "non_exported_table1", "database1") },
            Table {
                row_count: 15,
                is_self_referencing: true,
                export_complexity_type: ExportComplexityType::COMPLEX,
                self_referencing_column: "parent_id".to_string(),
                ..plain(4, "non_exported_table2", "database1")
            },
        ]
    );
    assert_eq!(controller.update_empty_tables_knowledge("db"), Ok(()));
}

#[test]
fn a_failure_to_connect_is_described() {
    assert_eq!(describe_connection_failure("timeout"), "Failed to connect to database: timeout");
}

#[test]
fn tables_are_presented_with_their_status() {
    let table = Table {
        export_order: 2,
        row_count: 20,
        is_exported: true,
        ..plain(2, "exported_table2", "database1")
    };
    let model = TablePresenter::present_table(&table);
    assert_eq!(model.id, 2);
    assert_eq!(model.name, "exported_table2");
    assert_eq!(model.table_type, "BASE TABLE");
    assert_eq!(model.export_complexity_type, "SIMPLE");
    assert_eq!(model.database, "database1");
    assert_eq!(model.export_order, 2);
    assert!(!model.is_self_referencing);
    assert_eq!(model.self_referencing_column, "");
    assert_eq!(model.row_count, 20);
    assert!(model.is_exported);
    assert_eq!(model.status, "Exported");
    let knowledge = KnowledgePresenter::present_table_knowledge(&plain(3, "t", "db"));
    assert_eq!(knowledge.id, 3);
    assert_eq!(knowledge.name, "t");
    assert_eq!(knowledge.database, "db");
    assert_eq!(knowledge.status, "Not Exported");
    assert_eq!(status_of(true), "Exported");
    assert_eq!(status_of(false), "Not Exported");
    let both = [table.clone(), plain(3, "t", "db")];
    let models = TablePresenter::present_tables(&both);
    assert_eq!(models.len(), 2);
    assert_eq!(models[0], model);
    assert_eq!(models[1].status, "Not Exported");
    let known = KnowledgePresenter::present_tables_knowledge(&both);
    assert_eq!(known.len(), 2);
    assert_eq!(known[0].status, "Exported");
    assert_eq!(known[1], knowledge);
}

#[test]
fn columns_and_rows_are_presented_as_they_are() {
    let columns = [
        TwoColumn { name: "id".to_string(), data_type: "integer".to_string() },
        TwoColumn { name: "name".to_string(), data_type: "varchar".to_string() },
    ];
    let model = TablePresenter::present_column(&columns[1]);
    assert_eq!(model.name, "name");
    assert_eq!(model.data_type, "varchar");
    let models = TablePresenter::present_columns(&columns);
    assert_eq!(models.len(), 2);
    assert_eq!(models[0].name, "id");
    assert_eq!(models[1], model);
    let rows = [vec!["1".to_string(), "Row 1".to_string()], vec![]];
    assert_eq!(TablePresenter::present_row(&rows[0]).values, rows[0]);
    let shown = TablePresenter::present_rows(&rows);
    assert_eq!(shown.len(), 2);
    assert_eq!(shown[0].values, rows[0]);
    assert!(shown[1].values.is_empty());
}

#[test]
fn the_summary_counts_the_tables() {
    let controller = knowledge();
    let mut all = controller.get_exported_tables().unwrap();
    all.extend(controller.get_non_exported_tables().unwrap());
    all.push(plain(9, "empty", "db"));
    assert_eq!(
        KnowledgePresenter::present_knowledge_summary(&all),
        KnowledgeSummaryViewModel {
            total_tables: 5,
            exported_tables: 2,
            non_exported_tables: 3,
            self_referencing_tables: 1,
            empty_tables: 1,
        }
    );
    assert_eq!(
        KnowledgePresenter::present_knowledge_summary(&[]),
        KnowledgeSummaryViewModel {
            total_tables: 0,
            exported_tables: 0,
            non_exported_tables: 0,
            self_referencing_tables: 0,
            empty_tables: 0,
        }
    );
}

#[test]
fn a_table_that_was_never_seen_is_inserted() {
    for scan in [Scan::Empty, Scan::All, Scan::Clean, Scan::SelfReferencing] {
        assert_eq!(upkeep_for(scan, false), Upkeep::Insert);
    }
    assert_eq!(upkeep_for(Scan::Empty, true), Upkeep::RefreshRowCount);
    assert_eq!(upkeep_for(Scan::All, true), Upkeep::Store);
    assert_eq!(upkeep_for(Scan::Clean, true), Upkeep::Keep);
    assert_eq!(upkeep_for(Scan::SelfReferencing, true), Upkeep::Store);
}

#[test]
fn the_scans_run_over_the_gateways_in_memory() {
    let service = UpdateEmptyTablesKnowledgeService::new(
        Rc::new(PostgresTableGateway::new(String::new())),
        Rc::new(SqliteKnowledgeGateway::new(String::new())),
    );
    assert_eq!(service.update_empty_tables_knowledge("db"), Ok(()));
    assert_eq!(service.update_all_tables_knowledge("db"), Ok(()));
    assert_eq!(service.update_clean_tables_knowledge("db"), Ok(()));
    assert_eq!(service.update_self_referencing_tables_knowledge("db"), Ok(()));
}

#[test]
fn the_repair_runs_over_the_gateways_in_memory() {
    let service = FixNumericDataService::new(
        Rc::new(PostgresTableGateway::new(String::new())),
        Rc::new(SqliteKnowledgeGateway::new(String::new())),
    );
    assert_eq!(service.fix_numeric_data("db", "t"), Ok(()));
    assert_eq!(service.fix_all_numeric_data("db"), Ok(()));
    assert!(service.is_numeric_column("bigint"));
    assert!(!service.is_numeric_column("varchar"));
    assert_eq!(
        service.build_fix_numeric_data_query("t", "c"),
        Ok("UPDATE t SET c = REPLACE(c, ',', '.') WHERE c ~ ',' AND c !~ '[^0-9,\\.]'".to_string())
    );
}

#[test]
fn the_move_service_does_what_a_migration_asks_for() {
    let service = MoveTableDataService::new(
        Rc::new(PostgresTableGateway::new(String::new())),
        Rc::new(SqliteKnowledgeGateway::new(String::new())),
    );
    assert_eq!(MAX_DEPENDENCY_DEPTH, 64);
    assert_eq!(service.perform("a", "b", "t", &Request::TargetExists), Ok(Response::Exists(true)));
    assert_eq!(service.perform("a", "b", "t", &Request::MarkExported), Ok(Response::Marked));
    assert_eq!(
        service.perform("a", "b", "t", &Request::Execute("SELECT 1".to_string())),
        Ok(Response::Executed)
    );
    let columns = service.table_repository.get_columns("a", "t").unwrap();
    assert_eq!(
        service.perform("a", "b", "t", &Request::SourceColumns),
        Ok(Response::Columns(columns.clone()))
    );
    let rows = service.table_repository.get_rows("a", "t").unwrap();
    assert_eq!(service.perform("a", "b", "t", &Request::TargetRows), Ok(Response::Rows(rows.clone())));
    assert_eq!(
        service.build_insert_query("t", &columns, &rows[0]),
        Ok("INSERT INTO t (id, name) VALUES ('1', 'Row 1')".to_string())
    );
    assert_eq!(
        service.build_insert_query("t", &columns, &Row { cells: vec![] }),
        Err("a row lacks a column that the statement names".to_string())
    );
    assert_eq!(
        service.extract_referenced_table_from_error("not present in table \"customers\"."),
        Some("customers".to_string())
    );
    assert_eq!(service.extract_referenced_table_from_error("timeout"), None);
}
