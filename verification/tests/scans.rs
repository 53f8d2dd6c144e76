use std::cell::RefCell;
use std::rc::Rc;

use twodb::adapters::controllers::table_controller::TableController;
use twodb::application::repositories::knowledge_repository::KnowledgeRepository;
use twodb::application::repositories::table_repository::TableRepository;
use twodb::application::use_cases::fix_numeric_data::FixNumericDataService;
use twodb::application::use_cases::update_empty_tables_knowledge::UpdateEmptyTablesKnowledgeService;
use twodb::domain::row::Row;
use twodb::domain::table::{build_base_simple_table, Table};
use twodb::domain::two_column::TwoColumn;

/// Repositories that write down every call. The table repository lists the
/// tables `a`, `b` and `c`, knows `b` already, and fails where it is told
/// to.
struct Journal {
    calls: Rc<RefCell<Vec<String>>>,
    fail_on: Option<String>,
}

impl Journal {
    fn note(&self, call: String) -> Result<(), String> {
        self.calls.borrow_mut().push(call.clone());
        match &self.fail_on {
            Some(failing) if *failing == call => Err(format!("failed: {}", call)),
            _ => Ok(()),
        }
    }

    fn listed(&self, call: &str, database_name: &str) -> Result<Vec<Table>, String> {
        self.note(call.to_string())?;
        Ok(["a", "b", "c"]
            .iter()
            .map(|name| build_base_simple_table(name.to_string(), database_name.to_string()))
            .collect())
    }
}

impl TableRepository for Journal {
    fn get_table_by_name(&self, database_name: &str, table_name: &str) -> Result<Table, String> {
        self.note(format!("table {}.{}", database_name, table_name))?;
        Ok(build_base_simple_table(table_name.to_string(), database_name.to_string()))
    }

    fn get_all_tables(&self, database_name: &str) -> Result<Vec<Table>, String> {
        self.listed("list all", database_name)
    }

    fn get_empty_tables(&self, database_name: &str) -> Result<Vec<Table>, String> {
        self.listed("list empty", database_name)
    }

    fn get_clean_tables(&self, database_name: &str) -> Result<Vec<Table>, String> {
        self.listed("list clean", database_name)
    }

    fn get_self_referencing_tables(&self, database_name: &str) -> Result<Vec<Table>, String> {
        self.listed("list self", database_name)
    }

    fn update_table(&self, table: &Table) -> Result<(), String> {
        self.note(format!("update {}", table.name))
    }

    fn insert_table(&self, table: &Table) -> Result<(), String> {
        self.note(format!("insert {} rows={}", table.name, table.row_count))
    }

    fn table_exists(&self, table: &Table) -> Result<bool, String> {
        self.note(format!("exists {}", table.name))?;
        Ok(table.name == "b")
    }

    fn get_columns(&self, _database_name: &str, table_name: &str) -> Result<Vec<TwoColumn>, String> {
        self.note(format!("columns {}", table_name))?;
        Ok(vec![
            TwoColumn { name: "id".to_string(), data_type: "integer".to_string() },
            TwoColumn { name: "name".to_string(), data_type: "varchar".to_string() },
            TwoColumn { name: "price".to_string(), data_type: "numeric".to_string() },
        ])
    }

    fn get_rows(&self, _database_name: &str, _table_name: &str) -> Result<Vec<Row>, String> {
        Ok(Vec::new())
    }

    fn execute_query(&self, _database_name: &str, query: &str) -> Result<(), String> {
        let words: Vec<&str> = query.split(' ').collect();
        self.note(format!("execute {} {}", words[1], words[3]))
    }
}

impl KnowledgeRepository for Journal {
    fn get_table_knowledge(&self, database_name: &str, table_name: &str) -> Result<Table, String> {
        Ok(build_base_simple_table(table_name.to_string(), database_name.to_string()))
    }

    fn update_table_knowledge(&self, table: &Table) -> Result<(), String> {
        self.note(format!(
            "store {} rows={} self={}",
            table.name, table.row_count, table.is_self_referencing
        ))
    }

    fn update_row_count(&self, table: &mut Table) -> Result<(), String> {
        self.note(format!("count {}", table.name))?;
        table.update_row_count(7);
        Ok(())
    }

    fn update_self_referencing(&self, table: &mut Table, _database: &str) -> Result<(), String> {
        self.note(format!("mark {}", table.name))?;
        table.update_self_referencing(&vec!["parent".to_string()]);
        Ok(())
    }

    fn update_export_status(&self, _table_name: &str, _is_exported: bool) -> Result<(), String> {
        Ok(())
    }

    fn get_exported_tables(&self) -> Result<Vec<Table>, String> {
        Ok(Vec::new())
    }

    fn get_non_exported_tables(&self) -> Result<Vec<Table>, String> {
        Ok(Vec::new())
    }
}

fn journals(fail_on: Option<&str>) -> (Rc<Journal>, Rc<Journal>, Rc<RefCell<Vec<String>>>) {
    let calls = Rc::new(RefCell::new(Vec::new()));
    let journal = |calls: &Rc<RefCell<Vec<String>>>| {
        Rc::new(Journal { calls: calls.clone(), fail_on: fail_on.map(str::to_string) })
    };
    (journal(&calls), journal(&calls), calls)
}

fn scans(
    fail_on: Option<&str>,
) -> (UpdateEmptyTablesKnowledgeService<Journal, Journal>, Rc<RefCell<Vec<String>>>) {
    let (tables, knowledge, calls) = journals(fail_on);
    (UpdateEmptyTablesKnowledgeService::new(tables, knowledge), calls)
}

fn written(calls: &Rc<RefCell<Vec<String>>>) -> Vec<String> {
    calls.borrow().clone()
}

#[test]
fn the_empty_scan_counts_a_known_table_and_inserts_a_new_one() {
    let (service, calls) = scans(None);
    assert_eq!(service.update_empty_tables_knowledge("db"), Ok(()));
    assert_eq!(
        written(&calls),
        vec![
            "list empty",
            "exists a",
            "insert a rows=0",
            "exists b",
            "count b",
            "exists c",
            "insert c rows=0",
        ]
    );
}

#[test]
fn the_scan_of_all_tables_marks_and_counts_before_it_stores_or_inserts() {
    let (service, calls) = scans(None);
    assert_eq!(service.update_all_tables_knowledge("db"), Ok(()));
    assert_eq!(
        written(&calls),
        vec![
            "list all",
            "mark a",
            "count a",
            "exists a",
            "insert a rows=7",
            "mark b",
            "count b",
            "exists b",
            "store b rows=7 self=true",
            "mark c",
            "count c",
            "exists c",
            "insert c rows=7",
        ]
    );
}

#[test]
fn the_clean_scan_never_inserts_a_known_table_again() {
    let (service, calls) = scans(None);
    assert_eq!(service.update_clean_tables_knowledge("db"), Ok(()));
    assert_eq!(
        written(&calls),
        vec![
            "list clean",
            "count a",
            "exists a",
            "insert a rows=7",
            "count b",
            "exists b",
            "count c",
            "exists c",
            "insert c rows=7",
        ]
    );
}

#[test]
fn the_scan_of_self_referencing_tables_stops_at_the_first_failure() {
    let (service, calls) = scans(Some("exists b"));
    assert_eq!(
        service.update_self_referencing_tables_knowledge("db"),
        Err("failed: exists b".to_string())
    );
    assert_eq!(written(&calls), vec!["list self", "exists a", "insert a rows=0", "exists b"]);
    let (service, calls) = scans(None);
    assert_eq!(service.update_self_referencing_tables_knowledge("db"), Ok(()));
    assert_eq!(
        written(&calls),
        vec![
            "list self",
            "exists a",
            "insert a rows=0",
            "exists b",
            "store b rows=0 self=false",
            "exists c",
            "insert c rows=0",
        ]
    );
}

#[test]
fn a_scan_hands_on_the_failure_to_list() {
    let (service, calls) = scans(Some("list clean"));
    assert_eq!(service.update_clean_tables_knowledge("db"), Err("failed: list clean".to_string()));
    assert_eq!(written(&calls), vec!["list clean"]);
}

#[test]
fn a_repair_executes_one_statement_for_each_numeric_column() {
    let (tables, knowledge, calls) = journals(None);
    let service = FixNumericDataService::new(tables, knowledge);
    assert_eq!(service.fix_numeric_data("db", "items"), Ok(()));
    assert_eq!(written(&calls), vec!["columns items", "execute items id", "execute items price"]);
}

#[test]
fn a_repair_stops_at_the_statement_that_fails() {
    let (tables, knowledge, calls) = journals(Some("execute b id"));
    let service = FixNumericDataService::new(tables, knowledge);
    assert_eq!(service.fix_all_numeric_data("db"), Err("failed: execute b id".to_string()));
    assert_eq!(
        written(&calls),
        vec![
            "list all",
            "columns a",
            "execute a id",
            "execute a price",
            "columns b",
            "execute b id",
        ]
    );
}

#[test]
fn a_repair_of_all_tables_hands_on_the_failure_to_list() {
    let (tables, knowledge, calls) = journals(Some("list all"));
    let service = FixNumericDataService::new(tables, knowledge);
    assert_eq!(service.fix_all_numeric_data("db"), Err("failed: list all".to_string()));
    assert_eq!(written(&calls), vec!["list all"]);
}

#[test]
fn the_controller_does_not_look_the_target_up_once_the_source_failed() {
    let calls = Rc::new(RefCell::new(Vec::new()));
    let controller = TableController::new(Journal {
        calls: calls.clone(),
        fail_on: Some("table one.t".to_string()),
    });
    assert_eq!(
        controller.move_table_data("one", "t", "two", "t"),
        Err("failed: table one.t".to_string())
    );
    assert_eq!(written(&calls), vec!["table one.t"]);
    let calls = Rc::new(RefCell::new(Vec::new()));
    let controller = TableController::new(Journal {
        calls: calls.clone(),
        fail_on: Some("table two.t".to_string()),
    });
    assert_eq!(
        controller.move_table_data("one", "t", "two", "t"),
        Err("failed: table two.t".to_string())
    );
    assert_eq!(written(&calls), vec!["table one.t", "table two.t"]);
}
