//! The look of the status column where the list is shown as a table of
//! `cli_table`.

use cli_table::CellStruct;
use cli_table::Color;
use cli_table::Style;
use vstd::prelude::*;
use crate::task::Status;
use crate::task::StatusColor;

verus! {

/// A table cell of `cli_table`. Its text, format and style are private
/// to that crate, so nothing of a cell is visible here.
#[verifier::external_type_specification]
#[verifier::external_body]
pub struct ExCellStruct(cli_table::CellStruct);

/// The cell that `cli_table::Style::foreground_color` hands back for a cell
/// and a colour: the same cell, with that colour as the foreground colour
/// of its style. The method reads nothing but its two arguments.
pub uninterp spec fn with_foreground_color(cell: CellStruct, color: StatusColor) -> CellStruct;

/// Calls `cli_table::Style::foreground_color` on the cell, with the colour
/// of `cli_table` that goes by the same name. The contract gives the
/// method's result its name and claims nothing else of it: a cell cannot
/// be inspected.
#[verifier::external_body]
fn with_foreground(cell: CellStruct, color: StatusColor) -> (painted: CellStruct)
    ensures
        painted == with_foreground_color(cell, color),
{
    cell.foreground_color(Some(match color {
        StatusColor::Red => Color::Red,
        StatusColor::Green => Color::Green,
    }))
}

/// Gives the cell that shows a status the colour of that status: the
/// result is what `cli_table` makes of this cell and that colour.
pub fn custom_cell(cell: CellStruct, status: &Status) -> (painted: CellStruct)
    ensures
        painted == with_foreground_color(cell, status.shown_in()),
{
    with_foreground(cell, status.color())
}

} // verus!
