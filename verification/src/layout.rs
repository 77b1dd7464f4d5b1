//! What a table is made of: the cells of its header and footer, and its body
//! rows with their style targets and press messages, decided from the
//! table's options.
use vstd::prelude::*;

use iced_widget::container;

use crate::style::{Catalog, Part};

verus! {

/// A row of the table that is drawn with an appearance of the [`Catalog`].
#[derive(Clone, Copy, Debug, PartialEq, Eq, Structural)]
pub enum Target {
    /// The header row.
    Header,
    /// The footer row.
    Footer,
    /// A body row that is not selected.
    Row { index: usize },
    /// The selected body row.
    SelectedRow { index: usize },
}

impl Target {
    /// The part of the table that this target is, as the default style sees it.
    pub open spec fn part(self) -> Part {
        match self {
            Target::Header => Part::Header,
            Target::Footer => Part::Footer,
            Target::Row { index } => Part::Row(index),
            Target::SelectedRow { index } => Part::SelectedRow(index),
        }
    }

    /// The container style that the theme gives this target: the catalog's
    /// `header`, `footer`, `row` or `selected_row` with the row's index.
    pub fn appearance<T: Catalog>(&self, theme: &T, style: &T::Style) -> (r: container::Style)
        ensures
            match *self {
                Target::Header => call_ensures(T::header, (theme, style), r),
                Target::Footer => call_ensures(T::footer, (theme, style), r),
                Target::Row { index } => call_ensures(T::row, (theme, style, index), r),
                Target::SelectedRow { index } => call_ensures(
                    T::selected_row,
                    (theme, style, index),
                    r,
                ),
            },
    {
        match self {
            Target::Header => theme.header(style),
            Target::Footer => theme.footer(style),
            Target::Row { index } => theme.row(style, *index),
            Target::SelectedRow { index } => theme.selected_row(style, *index),
        }
    }
}

/// What the table was built with, as far as it decides its layout.
#[derive(Clone, Copy, Debug, PartialEq, Eq, Structural)]
pub struct TableOptions {
    /// The number of columns.
    pub column_count: usize,
    /// The number of body rows.
    pub row_count: usize,
    /// The index of the selected row, if any.
    pub selected_row: Option<usize>,
    /// Whether a message is emitted when a body row is pressed.
    pub row_press: bool,
    /// Whether a message is emitted while a column divider is dragged.
    pub column_drag: bool,
    /// Whether a message is emitted when a column drag ends.
    pub column_release: bool,
    /// Whether the table has a footer row.
    pub footer: bool,
    /// Whether a message is emitted when a header cell is pressed.
    pub header_press: bool,
}

/// A header or footer cell: the column it shows, whether its divider can be
/// dragged to resize the column, and the column index that a press on it
/// reports, if presses on it are reported.
#[derive(Clone, Copy, Debug, PartialEq, Eq, Structural)]
pub struct EdgeCell {
    /// The column's index.
    pub column: usize,
    /// Whether the cell's divider is interactive; otherwise it is plain spacing.
    pub resizable: bool,
    /// The column index that a press on the cell reports, if it is reported.
    pub press: Option<usize>,
}

/// Which of the two edge rows a cell belongs to.
#[derive(Clone, Copy, Debug, PartialEq, Eq, Structural)]
pub enum Edge {
    /// The header row, whose cells can be pressed.
    Header,
    /// The footer row.
    Footer,
}

/// A cell of a body row: the data row and the column it shows.
#[derive(Clone, Copy, Debug, PartialEq, Eq, Structural)]
pub struct BodyCell {
    /// The data row's index.
    pub row: usize,
    /// The column's index.
    pub column: usize,
}

/// A body row: its index, the target it is styled as, and the row index
/// that a press on it reports, if presses are reported.
#[derive(Clone, Copy, Debug, PartialEq, Eq, Structural)]
pub struct BodyRow {
    /// The row's index.
    pub index: usize,
    /// How the row is styled.
    pub target: Target,
    /// The index that a press on the row reports, if the table reports presses.
    pub press: Option<usize>,
}

/// The layout of a table: header cells, body rows, and footer cells if the
/// table has a footer.
#[derive(Clone, Debug)]
pub struct TablePlan {
    /// One cell per column, in column order.
    pub header: Vec<EdgeCell>,
    /// One row per data row, in row order.
    pub body: Vec<BodyRow>,
    /// One cell per column, in column order, if the table has a footer.
    pub footer: Option<Vec<EdgeCell>>,
}

/// Whether column dividers are interactive: only when both the drag and the
/// release messages are set.
pub open spec fn resizable_of(options: TableOptions) -> bool {
    options.column_drag && options.column_release
}

/// The header or footer cell of column `column`: a header cell reports its
/// column when pressed if the table has a header-press message; a footer
/// cell reports nothing.
pub open spec fn edge_cell_of(options: TableOptions, edge: Edge, column: int) -> EdgeCell {
    EdgeCell {
        column: column as usize,
        resizable: resizable_of(options),
        press: if edge == Edge::Header && options.header_press {
            Some(column as usize)
        } else {
            None
        },
    }
}

/// The target of row `index`: the selected-row target exactly when it is the
/// selected row.
pub open spec fn row_target_of(index: usize, selected_row: Option<usize>) -> Target {
    if selected_row == Some(index) {
        Target::SelectedRow { index }
    } else {
        Target::Row { index }
    }
}

/// The body row at `index`.
pub open spec fn body_row_of(options: TableOptions, index: int) -> BodyRow {
    BodyRow {
        index: index as usize,
        target: row_target_of(index as usize, options.selected_row),
        press: if options.row_press { Some(index as usize) } else { None },
    }
}

/// `cells` holds the cells of the edge row `edge` for every column in order.
pub open spec fn is_edge_row(options: TableOptions, edge: Edge, cells: Seq<EdgeCell>) -> bool {
    &&& cells.len() == options.column_count
    &&& forall|i: int|
        0 <= i < cells.len() ==> #[trigger] cells[i] == edge_cell_of(options, edge, i)
}

/// `cells` holds the cells of body row `row`, one per column in order.
pub open spec fn is_body_row_cells(options: TableOptions, row: usize, cells: Seq<BodyCell>) -> bool {
    &&& cells.len() == options.column_count
    &&& forall|i: int|
        0 <= i < cells.len() ==> #[trigger] cells[i] == (BodyCell { row, column: i as usize })
}

/// `rows` holds the body rows of every data row in order.
pub open spec fn is_body(options: TableOptions, rows: Seq<BodyRow>) -> bool {
    &&& rows.len() == options.row_count
    &&& forall|i: int| 0 <= i < rows.len() ==> #[trigger] rows[i] == body_row_of(options, i)
}

/// `plan` is the layout of a table built with `options`.
pub open spec fn is_plan_of(options: TableOptions, plan: TablePlan) -> bool {
    &&& is_edge_row(options, Edge::Header, plan.header@)
    &&& is_body(options, plan.body@)
    &&& (match plan.footer {
        Some(cells) => options.footer && is_edge_row(options, Edge::Footer, cells@),
        None => !options.footer,
    })
}

/// The target that body row `index` is styled as.
pub fn row_target(index: usize, selected_row: Option<usize>) -> (target: Target)
    ensures
        target == row_target_of(index, selected_row),
{
    match selected_row {
        Some(selected) => {
            if selected == index {
                Target::SelectedRow { index }
            } else {
                Target::Row { index }
            }
        },
        None => Target::Row { index },
    }
}

/// The cells of the header or footer row, one per column.
pub fn edge_cells(options: TableOptions, edge: Edge) -> (cells: Vec<EdgeCell>)
    ensures
        is_edge_row(options, edge, cells@),
        cells@.len() == options.column_count,
        forall|i: int|
            0 <= i < cells@.len() ==> {
                &&& #[trigger] cells@[i].column == i
                &&& cells@[i].resizable == (options.column_drag && options.column_release)
                &&& cells@[i].press == (if edge == Edge::Header && options.header_press {
                    Some(i as usize)
                } else {
                    None
                })
            },
{
    let resizable = options.column_drag && options.column_release;
    let pressable = match edge {
        Edge::Header => options.header_press,
        Edge::Footer => false,
    };
    let mut cells: Vec<EdgeCell> = Vec::new();
    let mut column: usize = 0;
    while column < options.column_count
        invariant
            column <= options.column_count,
            resizable == resizable_of(options),
            pressable == (edge == Edge::Header && options.header_press),
            cells@.len() == column,
            forall|i: int|
                0 <= i < column ==> #[trigger] cells@[i] == edge_cell_of(options, edge, i),
        decreases options.column_count - column,
    {
        let press = if pressable { Some(column) } else { None };
        cells.push(EdgeCell { column, resizable, press });
        column = column + 1;
    }
    cells
}

/// The cells of body row `row`, one per column, in column order.
pub fn body_cells(options: TableOptions, row: usize) -> (cells: Vec<BodyCell>)
    ensures
        is_body_row_cells(options, row, cells@),
        cells@.len() == options.column_count,
        forall|i: int|
            0 <= i < cells@.len() ==> #[trigger] cells@[i].row == row && cells@[i].column == i,
{
    let mut cells: Vec<BodyCell> = Vec::new();
    let mut column: usize = 0;
    while column < options.column_count
        invariant
            column <= options.column_count,
            cells@.len() == column,
            forall|i: int|
                0 <= i < column ==> #[trigger] cells@[i] == (BodyCell { row, column: i as usize }),
        decreases options.column_count - column,
    {
        cells.push(BodyCell { row, column });
        column = column + 1;
    }
    cells
}

/// The body rows, one per data row.
pub fn body_rows(options: TableOptions) -> (rows: Vec<BodyRow>)
    ensures
        is_body(options, rows@),
        rows@.len() == options.row_count,
        forall|i: int|
            0 <= i < rows@.len() ==> {
                &&& #[trigger] rows@[i].index == i
                &&& rows@[i].target == (if options.selected_row == Some(i as usize) {
                    Target::SelectedRow { index: i as usize }
                } else {
                    Target::Row { index: i as usize }
                })
                &&& rows@[i].press == (if options.row_press {
                    Some(i as usize)
                } else {
                    None
                })
            },
{
    let mut rows: Vec<BodyRow> = Vec::new();
    let mut index: usize = 0;
    while index < options.row_count
        invariant
            index <= options.row_count,
            rows@.len() == index,
            forall|i: int| 0 <= i < index ==> #[trigger] rows@[i] == body_row_of(options, i),
        decreases options.row_count - index,
    {
        let press = if options.row_press { Some(index) } else { None };
        rows.push(BodyRow { index, target: row_target(index, options.selected_row), press });
        index = index + 1;
    }
    rows
}

/// Lays out a table built with `options`.
pub fn plan(options: TableOptions) -> (plan: TablePlan)
    ensures
        is_plan_of(options, plan),
        plan.header@.len() == options.column_count,
        plan.body@.len() == options.row_count,
        plan.footer is Some <==> options.footer,
        plan.footer is Some ==> plan.footer->0@.len() == options.column_count,
{
    let header = edge_cells(options, Edge::Header);
    let body = body_rows(options);
    let footer = if options.footer { Some(edge_cells(options, Edge::Footer)) } else { None };
    TablePlan { header, body, footer }
}

/// Whether the body row is styled as selected.
pub open spec fn is_selected(row: BodyRow) -> bool {
    row.target is SelectedRow
}

/// At most one body row is selected, and it is the row at the selected
/// index: that row is selected when the index is below the row count, and
/// no row is selected otherwise.
pub proof fn only_the_selected_row_is_selected(options: TableOptions, plan: TablePlan, i: int)
    requires
        is_plan_of(options, plan),
        0 <= i < plan.body@.len(),
    ensures
        is_selected(plan.body@[i]) <==> options.selected_row == Some(i as usize),
        plan.body@[i].index == i,
{
    assert(plan.body@[i] == body_row_of(options, i));
}

/// Two different body rows are never both selected.
pub proof fn at_most_one_selected_row(options: TableOptions, plan: TablePlan, i: int, j: int)
    requires
        is_plan_of(options, plan),
        0 <= i < plan.body@.len(),
        0 <= j < plan.body@.len(),
        i != j,
    ensures
        !(is_selected(plan.body@[i]) && is_selected(plan.body@[j])),
{
    only_the_selected_row_is_selected(options, plan, i);
    only_the_selected_row_is_selected(options, plan, j);
}

/// A press on a body row reports that row's own index, and presses are
/// reported exactly when the table was given a row-press message.
pub proof fn press_reports_own_index(options: TableOptions, plan: TablePlan, i: int)
    requires
        is_plan_of(options, plan),
        0 <= i < plan.body@.len(),
    ensures
        plan.body@[i].press is Some <==> options.row_press,
        plan.body@[i].press is Some ==> plan.body@[i].press->0 == i,
{
    assert(plan.body@[i] == body_row_of(options, i));
}

/// Each body row is styled as the row (or selected row) with its own index,
/// so the default style alternates by that index.
pub proof fn row_target_carries_index(options: TableOptions, plan: TablePlan, i: int)
    requires
        is_plan_of(options, plan),
        0 <= i < plan.body@.len(),
    ensures
        plan.body@[i].target.part() == Part::Row(i as usize) || plan.body@[i].target.part()
            == Part::SelectedRow(i as usize),
{
    assert(plan.body@[i] == body_row_of(options, i));
}

/// The footer, when there is one, has the same columns as the header, in the
/// same order, with the same dividers; its cells are not pressable.
pub proof fn footer_cells_match_header(options: TableOptions, plan: TablePlan, i: int)
    requires
        is_plan_of(options, plan),
        plan.footer is Some,
    ensures
        plan.footer->0@.len() == plan.header@.len(),
        0 <= i < plan.header@.len() ==> {
            &&& plan.footer->0@[i].column == plan.header@[i].column
            &&& plan.footer->0@[i].resizable == plan.header@[i].resizable
            &&& plan.footer->0@[i].press is None
        },
{
    if 0 <= i < plan.header@.len() {
        assert(plan.footer->0@[i] == edge_cell_of(options, Edge::Footer, i));
        assert(plan.header@[i] == edge_cell_of(options, Edge::Header, i));
    }
}

/// A press on a header cell reports that cell's column index, and header
/// presses are reported exactly when the table was given a header-press
/// message.
pub proof fn header_press_reports_column(options: TableOptions, plan: TablePlan, i: int)
    requires
        is_plan_of(options, plan),
        0 <= i < plan.header@.len(),
    ensures
        plan.header@[i].press is Some <==> options.header_press,
        plan.header@[i].press is Some ==> plan.header@[i].press->0 == i,
{
    assert(plan.header@[i] == edge_cell_of(options, Edge::Header, i));
}

/// Column dividers can be dragged exactly when both the drag and the release
/// messages are set, and then in every column.
pub proof fn dividers_resizable_iff_both_messages(options: TableOptions, plan: TablePlan, i: int)
    requires
        is_plan_of(options, plan),
        0 <= i < plan.header@.len(),
    ensures
        plan.header@[i].resizable <==> (options.column_drag && options.column_release),
        plan.header@[i].column == i,
{
    assert(plan.header@[i] == edge_cell_of(options, Edge::Header, i));
}

/// A laid-out table has one header cell per column and one body row per
/// data row, whatever row is selected and whatever messages are set; a
/// footer row exactly when the table was given one, again with one cell per
/// column.
pub proof fn plan_counts(options: TableOptions, plan: TablePlan)
    requires
        is_plan_of(options, plan),
    ensures
        plan.header@.len() == options.column_count,
        plan.body@.len() == options.row_count,
        plan.footer is Some <==> options.footer,
        plan.footer is Some ==> plan.footer->0@.len() == options.column_count,
{
}

/// Every data row has its body row, at its own position: body row `i`
/// shows data row `i`, styled as selected exactly when `i` is the selected
/// index.
pub proof fn every_data_row_is_shown(options: TableOptions, plan: TablePlan, i: int)
    requires
        is_plan_of(options, plan),
        0 <= i < options.row_count,
    ensures
        i < plan.body@.len(),
        plan.body@[i].index == i,
        (plan.body@[i].target == Target::SelectedRow { index: i as usize })
            <==> options.selected_row == Some(i as usize),
        (plan.body@[i].target == Target::Row { index: i as usize })
            <==> options.selected_row != Some(i as usize),
{
    assert(plan.body@[i] == body_row_of(options, i));
}

/// Every column has its header cell, and its footer cell when there is a
/// footer, at its own position, whether or not columns can be resized.
pub proof fn every_column_has_edge_cells(options: TableOptions, plan: TablePlan, i: int)
    requires
        is_plan_of(options, plan),
        0 <= i < options.column_count,
    ensures
        i < plan.header@.len(),
        plan.header@[i].column == i,
        plan.footer is Some ==> i < plan.footer->0@.len() && plan.footer->0@[i].column == i,
{
    assert(plan.header@[i] == edge_cell_of(options, Edge::Header, i));
    if plan.footer is Some {
        assert(plan.footer->0@[i] == edge_cell_of(options, Edge::Footer, i));
    }
}

/// The cells of a body row are one per column, in column order, each of
/// that row, whether or not columns can be resized.
pub proof fn body_row_cells_cover_columns(
    options: TableOptions,
    row: usize,
    cells: Seq<BodyCell>,
    i: int,
)
    requires
        is_body_row_cells(options, row, cells),
        0 <= i < options.column_count,
    ensures
        cells.len() == options.column_count,
        cells[i].row == row,
        cells[i].column == i,
{
    assert(cells[i] == (BodyCell { row, column: i as usize }));
}

} // verus!
