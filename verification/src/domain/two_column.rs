//! A column of a table, as the schema describes it.

use vstd::prelude::*;

verus! {

/// The name and the declared type of one column.
#[derive(Debug, Clone, PartialEq, Eq)]
pub struct TwoColumn {
    pub name: String,
    pub data_type: String,
}

/// What a [`TwoColumn`] holds, as plain texts.
pub struct TwoColumnView {
    pub name: Seq<char>,
    pub data_type: Seq<char>,
}

impl View for TwoColumn {
    type V = TwoColumnView;

    open spec fn view(&self) -> TwoColumnView {
        TwoColumnView { name: self.name@, data_type: self.data_type@ }
    }
}

impl TwoColumn {
    /// A column with the same name and type.
    pub fn duplicate(&self) -> (copy: TwoColumn)
        ensures
            copy@ == self@,
    {
        TwoColumn { name: self.name.clone(), data_type: self.data_type.clone() }
    }
}

/// The views of a list of columns.
pub open spec fn column_views(columns: Seq<TwoColumn>) -> Seq<TwoColumnView> {
    columns.map_values(|c: TwoColumn| c@)
}

/// The names of a list of columns.
pub open spec fn column_names(columns: Seq<TwoColumnView>) -> Seq<Seq<char>> {
    columns.map_values(|c: TwoColumnView| c.name)
}

} // verus!
