use std::cell::RefCell;
use std::collections::HashMap;
use std::rc::Rc;

use twodb::adapters::gateways::postgres_table_gateway::PostgresTableGateway;
use twodb::adapters::gateways::sqlite_knowledge_gateway::SqliteKnowledgeGateway;
use twodb::application::repositories::knowledge_repository::KnowledgeRepository;
use twodb::application::repositories::table_repository::TableRepository;
use twodb::application::use_cases::move_table_data::MoveTableDataService;
use twodb::domain::row::{Cell, CellValue, Row};
use twodb::domain::table::{build_base_simple_table, Table};
use twodb::domain::two_column::TwoColumn;

/// Two databases in memory. The target takes a row for each statement that
/// it executes, and refuses a statement on a table while a table that it
/// has to refer to is empty.
struct Databases {
    source: HashMap<String, Vec<Row>>,
    source_columns: HashMap<String, Vec<TwoColumn>>,
    target_columns: HashMap<String, Vec<TwoColumn>>,
    target_rows: RefCell<HashMap<String, usize>>,
    needs: HashMap<String, String>,
    executed: RefCell<Vec<String>>,
}

impl Databases {
    fn table_of(query: &str) -> String {
        let rest = &query["INSERT INTO ".len()..];
        rest[..rest.find(' ').unwrap()].to_string()
    }
}

impl TableRepository for Databases {
    fn get_table_by_name(&self, database_name: &str, table_name: &str) -> Result<Table, String> {
        Ok(build_base_simple_table(table_name.to_string(), database_name.to_string()))
    }

    fn get_all_tables(&self, _database_name: &str) -> Result<Vec<Table>, String> {
        Ok(Vec::new())
    }

    fn get_empty_tables(&self, _database_name: &str) -> Result<Vec<Table>, String> {
        Ok(Vec::new())
    }

    fn get_clean_tables(&self, _database_name: &str) -> Result<Vec<Table>, String> {
        Ok(Vec::new())
    }

    fn get_self_referencing_tables(&self, _database_name: &str) -> Result<Vec<Table>, String> {
        Ok(Vec::new())
    }

    fn update_table(&self, _table: &Table) -> Result<(), String> {
        Ok(())
    }

    fn insert_table(&self, _table: &Table) -> Result<(), String> {
        Ok(())
    }

    fn table_exists(&self, table: &Table) -> Result<bool, String> {
        Ok(table.database == "target" && self.target_columns.contains_key(&table.name))
    }

    fn get_columns(&self, database_name: &str, table_name: &str) -> Result<Vec<TwoColumn>, String> {
        let columns =
            if database_name == "source" { &self.source_columns } else { &self.target_columns };
        Ok(columns.get(table_name).cloned().unwrap_or_default())
    }

    fn get_rows(&self, database_name: &str, table_name: &str) -> Result<Vec<Row>, String> {
        if database_name == "source" {
            Ok(self.source.get(table_name).cloned().unwrap_or_default())
        } else {
            let held = self.target_rows.borrow().get(table_name).copied().unwrap_or(0);
            Ok((0..held).map(|_| Row { cells: Vec::new() }).collect())
        }
    }

    fn execute_query(&self, _database_name: &str, query: &str) -> Result<(), String> {
        let table = Databases::table_of(query);
        if let Some(referenced) = self.needs.get(&table) {
            if self.target_rows.borrow().get(referenced).copied().unwrap_or(0) == 0 {
                return Err(format!(
                    "Key (ref_id)=(1) is not present in table \"{}\".",
                    referenced
                ));
            }
        }
        *self.target_rows.borrow_mut().entry(table).or_insert(0) += 1;
        self.executed.borrow_mut().push(query.to_string());
        Ok(())
    }
}

struct Knowledge {
    exported: RefCell<Vec<String>>,
}

impl KnowledgeRepository for Knowledge {
    fn get_table_knowledge(&self, database_name: &str, table_name: &str) -> Result<Table, String> {
        Ok(build_base_simple_table(table_name.to_string(), database_name.to_string()))
    }

    fn update_table_knowledge(&self, _table: &Table) -> Result<(), String> {
        Ok(())
    }

    fn update_row_count(&self, _table: &mut Table) -> Result<(), String> {
        Ok(())
    }

    fn update_self_referencing(&self, _table: &mut Table, _database: &str) -> Result<(), String> {
        Ok(())
    }

    fn update_export_status(&self, table_name: &str, is_exported: bool) -> Result<(), String> {
        if is_exported && !self.exported.borrow().iter().any(|t| t == table_name) {
            self.exported.borrow_mut().push(table_name.to_string());
        }
        Ok(())
    }

    fn get_exported_tables(&self) -> Result<Vec<Table>, String> {
        Ok(Vec::new())
    }

    fn get_non_exported_tables(&self) -> Result<Vec<Table>, String> {
        Ok(Vec::new())
    }
}

fn column(name: &str, data_type: &str) -> TwoColumn {
    TwoColumn { name: name.to_string(), data_type: data_type.to_string() }
}

fn person(id: i32, name: Option<&str>) -> Row {
    Row {
        cells: vec![
            Cell { name: "id".to_string(), value: CellValue::Int4(Some(id)) },
            Cell { name: "name".to_string(), value: CellValue::Varchar(name.map(str::to_string)) },
        ],
    }
}

fn databases(tables: Vec<(&str, Vec<Row>)>, needs: Vec<(&str, &str)>) -> Databases {
    let mut source = HashMap::new();
    let mut source_columns = HashMap::new();
    let mut target_columns = HashMap::new();
    for (name, rows) in tables {
        source.insert(name.to_string(), rows);
        source_columns
            .insert(name.to_string(), vec![column("id", "int4"), column("name", "varchar")]);
        target_columns
            .insert(name.to_string(), vec![column("id", "int4"), column("name", "varchar")]);
    }
    Databases {
        source,
        source_columns,
        target_columns,
        target_rows: RefCell::new(HashMap::new()),
        needs: needs.into_iter().map(|(a, b)| (a.to_string(), b.to_string())).collect(),
        executed: RefCell::new(Vec::new()),
    }
}

fn service(
    databases: Databases,
) -> (MoveTableDataService<Databases, Knowledge>, Rc<Databases>, Rc<Knowledge>) {
    let tables = Rc::new(databases);
    let knowledge = Rc::new(Knowledge { exported: RefCell::new(Vec::new()) });
    (MoveTableDataService::new(tables.clone(), knowledge.clone()), tables, knowledge)
}

#[test]
fn two_rows_become_two_inserts_and_the_table_is_exported() {
    let (service, tables, knowledge) =
        service(databases(vec![("t", vec![person(1, Some("a")), person(2, None)])], vec![]));
    let failed = service.move_table_data("source", "target", "t").unwrap();
    assert!(failed.is_empty());
    assert_eq!(
        *tables.executed.borrow(),
        vec![
            "INSERT INTO t (id, name) VALUES ('1', 'a')".to_string(),
            "INSERT INTO t (id, name) VALUES ('2', NULL)".to_string(),
        ]
    );
    assert_eq!(*knowledge.exported.borrow(), vec!["t".to_string()]);
}

#[test]
fn a_second_run_changes_nothing() {
    let (service, tables, knowledge) =
        service(databases(vec![("t", vec![person(1, Some("a")), person(2, None)])], vec![]));
    service.move_table_data("source", "target", "t").unwrap();
    let failed = service.move_table_data("source", "target", "t").unwrap();
    assert!(failed.is_empty());
    assert_eq!(tables.executed.borrow().len(), 2);
    assert_eq!(tables.target_rows.borrow().get("t").copied(), Some(2));
    assert_eq!(*knowledge.exported.borrow(), vec!["t".to_string()]);
}

#[test]
fn empty_tables_are_exported_without_a_statement() {
    let (service, tables, knowledge) = service(databases(vec![("t", vec![])], vec![]));
    let failed = service.move_table_data("source", "target", "t").unwrap();
    assert!(failed.is_empty());
    assert!(tables.executed.borrow().is_empty());
    assert_eq!(*knowledge.exported.borrow(), vec!["t".to_string()]);
}

#[test]
fn equal_counts_are_exported_without_a_statement() {
    let databases = databases(vec![("t", vec![person(1, Some("a")), person(2, None)])], vec![]);
    databases.target_rows.borrow_mut().insert("t".to_string(), 2);
    let (service, tables, knowledge) = service(databases);
    let failed = service.move_table_data("source", "target", "t").unwrap();
    assert!(failed.is_empty());
    assert!(tables.executed.borrow().is_empty());
    assert_eq!(*knowledge.exported.borrow(), vec!["t".to_string()]);
}

#[test]
fn a_referenced_table_is_populated_first() {
    let (service, tables, knowledge) = service(databases(
        vec![
            ("orders", vec![person(10, Some("first"))]),
            ("customers", vec![person(1, Some("ann"))]),
        ],
        vec![("orders", "customers")],
    ));
    let failed = service.move_table_data("source", "target", "orders").unwrap();
    assert!(failed.is_empty());
    assert_eq!(
        *tables.executed.borrow(),
        vec![
            "INSERT INTO customers (id, name) VALUES ('1', 'ann')".to_string(),
            "INSERT INTO orders (id, name) VALUES ('10', 'first')".to_string(),
        ]
    );
    assert_eq!(*knowledge.exported.borrow(), vec!["customers".to_string(), "orders".to_string()]);
}

#[test]
fn a_statement_that_fails_after_the_referenced_table_is_reported() {
    let (service, tables, knowledge) = service(databases(
        vec![("orders", vec![person(10, Some("first"))]), ("customers", vec![])],
        vec![("orders", "customers")],
    ));
    let failed = service.move_table_data("source", "target", "orders").unwrap();
    assert_eq!(failed, vec!["INSERT INTO orders (id, name) VALUES ('10', 'first')".to_string()]);
    assert!(tables.executed.borrow().is_empty());
    assert_eq!(*knowledge.exported.borrow(), vec!["customers".to_string()]);
}

#[test]
fn tables_that_refer_to_each_other_do_not_run_for_ever() {
    let (service, tables, _) = service(databases(
        vec![("a", vec![person(1, Some("x"))]), ("b", vec![person(2, Some("y"))])],
        vec![("a", "b"), ("b", "a")],
    ));
    let failed = service.move_table_data("source", "target", "a").unwrap();
    assert_eq!(
        failed,
        vec![
            "INSERT INTO b (id, name) VALUES ('2', 'y')".to_string(),
            "INSERT INTO a (id, name) VALUES ('1', 'x')".to_string(),
        ]
    );
    assert!(tables.executed.borrow().is_empty());
}

#[test]
fn a_table_that_the_target_lacks_is_skipped() {
    let mut databases = databases(vec![("t", vec![person(1, Some("a"))])], vec![]);
    databases.target_columns.clear();
    let (service, tables, knowledge) = service(databases);
    let failed = service.move_table_data("source", "target", "t").unwrap();
    assert!(failed.is_empty());
    assert!(tables.executed.borrow().is_empty());
    assert_eq!(*knowledge.exported.borrow(), vec!["t".to_string()]);
}

#[test]
fn the_gateways_in_memory_hold_equal_counts() {
    let service = MoveTableDataService::new(
        Rc::new(PostgresTableGateway::new("postgresql://localhost".to_string())),
        Rc::new(SqliteKnowledgeGateway::new("twodb.db".to_string())),
    );
    assert_eq!(service.move_table_data("one", "two", "table1"), Ok(Vec::new()));
}
