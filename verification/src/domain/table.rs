//! The record that the knowledge store keeps for each table.

use vstd::prelude::*;
use vstd::string::*;

verus! {

/// The name under which the database lists an ordinary table.
pub const BASE_TABLE_STR: &'static str = "BASE TABLE";

/// Whether a relation is an ordinary table or a view.
#[derive(Debug, Clone, Copy, PartialEq, Eq, Structural)]
pub enum TableType {
    BaseTable,
    VIEW,
}

impl TableType {
    /// The name of the type, as the database writes it.
    pub fn name(&self) -> (name: &'static str)
        ensures
            name@ == match *self {
                TableType::BaseTable => BASE_TABLE_STR@,
                TableType::VIEW => "VIEW"@,
            },
    {
        match self {
            TableType::BaseTable => BASE_TABLE_STR,
            TableType::VIEW => "VIEW",
        }
    }
}

/// How hard a table is to export: complex if it refers to itself.
#[derive(Debug, Clone, Copy, PartialEq, Eq, Structural)]
pub enum ExportComplexityType {
    SIMPLE,
    COMPLEX,
}

impl ExportComplexityType {
    /// The name of the complexity, as the knowledge store writes it.
    pub fn name(&self) -> (name: &'static str)
        ensures
            name@ == match *self {
                ExportComplexityType::SIMPLE => "SIMPLE"@,
                ExportComplexityType::COMPLEX => "COMPLEX"@,
            },
    {
        match self {
            ExportComplexityType::SIMPLE => "SIMPLE",
            ExportComplexityType::COMPLEX => "COMPLEX",
        }
    }
}

/// What the knowledge store knows of one table of one database.
#[derive(Debug, Clone, PartialEq, Eq)]
pub struct Table {
    pub id: i64,
    pub name: String,
    pub table_type: TableType,
    pub export_complexity_type: ExportComplexityType,
    pub database: String,
    pub export_order: i64,
    pub is_self_referencing: bool,
    pub self_referencing_column: String,
    pub row_count: i64,
    pub is_exported: bool,
}

/// What a [`Table`] holds, with texts as sequences.
pub struct TableView {
    pub id: i64,
    pub name: Seq<char>,
    pub table_type: TableType,
    pub export_complexity_type: ExportComplexityType,
    pub database: Seq<char>,
    pub export_order: i64,
    pub is_self_referencing: bool,
    pub self_referencing_column: Seq<char>,
    pub row_count: i64,
    pub is_exported: bool,
}

impl View for Table {
    type V = TableView;

    open spec fn view(&self) -> TableView {
        TableView {
            id: self.id,
            name: self.name@,
            table_type: self.table_type,
            export_complexity_type: self.export_complexity_type,
            database: self.database@,
            export_order: self.export_order,
            is_self_referencing: self.is_self_referencing,
            self_referencing_column: self.self_referencing_column@,
            row_count: self.row_count,
            is_exported: self.is_exported,
        }
    }
}

impl TableView {
    /// A table is complex to export exactly when it refers to itself.
    pub open spec fn well_formed(self) -> bool {
        (self.export_complexity_type == ExportComplexityType::COMPLEX) == self.is_self_referencing
    }
}

/// The record of a table of which nothing is known yet but its name and its
/// database.
pub open spec fn fresh_table(name: Seq<char>, database: Seq<char>) -> TableView {
    TableView {
        id: 0,
        name,
        table_type: TableType::BaseTable,
        export_complexity_type: ExportComplexityType::SIMPLE,
        database,
        export_order: 0,
        is_self_referencing: false,
        self_referencing_column: Seq::empty(),
        row_count: 0,
        is_exported: false,
    }
}

/// The views of a list of tables.
pub open spec fn table_views(tables: Seq<Table>) -> Seq<TableView> {
    tables.map_values(|t: Table| t@)
}

impl Default for Table {
    fn default() -> (table: Table)
        ensures
            table@ == fresh_table(Seq::empty(), Seq::empty()),
    {
        Table {
            id: 0,
            name: String::new(),
            table_type: TableType::BaseTable,
            export_complexity_type: ExportComplexityType::SIMPLE,
            database: String::new(),
            export_order: 0,
            is_self_referencing: false,
            self_referencing_column: String::new(),
            row_count: 0,
            is_exported: false,
        }
    }
}

impl Table {
    /// The table's name.
    pub fn get_table_name_as_str(&self) -> (name: String)
        ensures
            name@ == self@.name,
    {
        self.name.clone()
    }

    /// Counts one more visit of the table.
    pub fn increase_export_order(&mut self)
        requires
            old(self).export_order < i64::MAX,
        ensures
            final(self)@ == (TableView { export_order: (old(self).export_order + 1) as i64, ..old(self)@ }),
    {
        self.export_order += 1;
    }

    /// Records the number of rows that the table was found to hold.
    pub fn update_row_count(&mut self, count: i64)
        ensures
            final(self)@ == (TableView { row_count: count, ..old(self)@ }),
    {
        self.row_count = count;
    }

    /// Records what the search for columns of the table that refer to the
    /// table itself has found. With at least one such column the table
    /// becomes self-referencing, and so complex to export, through the first
    /// of them; with none it stays as it was. Returns whether there was one.
    pub fn update_self_referencing(&mut self, referencing_columns: &Vec<String>) -> (found: bool)
        ensures
            found == (referencing_columns@.len() > 0),
            found ==> final(self)@ == (TableView {
                is_self_referencing: true,
                export_complexity_type: ExportComplexityType::COMPLEX,
                self_referencing_column: referencing_columns@[0]@,
                ..old(self)@
            }),
            !found ==> final(self)@ == old(self)@,
            old(self)@.well_formed() ==> final(self)@.well_formed(),
    {
        if referencing_columns.len() > 0 {
            self.is_self_referencing = true;
            self.export_complexity_type = ExportComplexityType::COMPLEX;
            self.self_referencing_column = referencing_columns[0].clone();
            true
        } else {
            false
        }
    }

    /// A record with the same contents.
    pub fn duplicate(&self) -> (copy: Table)
        ensures
            copy@ == self@,
    {
        Table {
            id: self.id,
            name: self.name.clone(),
            table_type: self.table_type,
            export_complexity_type: self.export_complexity_type,
            database: self.database.clone(),
            export_order: self.export_order,
            is_self_referencing: self.is_self_referencing,
            self_referencing_column: self.self_referencing_column.clone(),
            row_count: self.row_count,
            is_exported: self.is_exported,
        }
    }
}

/// Records the number of rows that `table` was found to hold.
pub fn update_row_count(table: &mut Table, count: i64)
    ensures
        final(table)@ == (TableView { row_count: count, ..old(table)@ }),
{
    table.update_row_count(count)
}

/// Records the columns of `table` that were found to refer to the table
/// itself, as [`Table::update_self_referencing`] does.
pub fn update_self_referencing(table: &mut Table, referencing_columns: &Vec<String>) -> (found: bool)
    ensures
        found == (referencing_columns@.len() > 0),
        found ==> final(table)@ == (TableView {
            is_self_referencing: true,
            export_complexity_type: ExportComplexityType::COMPLEX,
            self_referencing_column: referencing_columns@[0]@,
            ..old(table)@
        }),
        !found ==> final(table)@ == old(table)@,
        old(table)@.well_formed() ==> final(table)@.well_formed(),
{
    table.update_self_referencing(referencing_columns)
}

/// The record of an ordinary table that does not refer to itself.
pub fn build_base_simple_table(name: String, database: String) -> (table: Table)
    ensures
        table@ == fresh_table(name@, database@),
        table@.well_formed(),
{
    Table {
        id: 0,
        name,
        table_type: TableType::BaseTable,
        export_complexity_type: ExportComplexityType::SIMPLE,
        database,
        export_order: 0,
        is_self_referencing: false,
        self_referencing_column: String::new(),
        row_count: 0,
        is_exported: false,
    }
}

/// The record of an ordinary table that refers to itself, through a column
/// that is not known yet.
pub fn build_self_references_table(name: String, database: String) -> (table: Table)
    ensures
        table@ == (TableView {
            export_complexity_type: ExportComplexityType::COMPLEX,
            is_self_referencing: true,
            ..fresh_table(name@, database@)
        }),
        table@.well_formed(),
{
    Table {
        id: 0,
        name,
        table_type: TableType::BaseTable,
        export_complexity_type: ExportComplexityType::COMPLEX,
        database,
        export_order: 0,
        is_self_referencing: true,
        self_referencing_column: String::new(),
        row_count: 0,
        is_exported: false,
    }
}

/// The record that tells the knowledge store whether the table called
/// `table_name` is exported: a fresh record under that name with the flag
/// set as asked.
pub fn set_table_is_exported(table_name: &String, is_exported: bool) -> (table: Table)
    ensures
        table@ == (TableView { is_exported, ..fresh_table(table_name@, Seq::empty()) }),
{
    let mut table = Table::default();
    table.name = table_name.clone();
    table.is_exported = is_exported;
    table
}

} // verus!
