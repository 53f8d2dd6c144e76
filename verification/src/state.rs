//! Which windows of the application are open.

use vstd::prelude::*;

verus! {

/// The windows that can be open, each with whether it is.
#[derive(Debug, Clone, Copy, PartialEq, Eq, Structural)]
pub struct WindowsState {
    pub window_move_one_table_open: bool,
    pub window_move_all_tables_open: bool,
    pub window_reset_open: bool,
}

} // verus!
