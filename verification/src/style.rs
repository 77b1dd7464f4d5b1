//! How a table is styled: the [`Catalog`] that themes implement, the
//! targets that the table styles, and the default style of iced's built-in
//! themes.
use vstd::prelude::*;

use iced_core::theme::palette::Pair;
use iced_core::Theme;
use iced_widget::container;

use crate::palette::{
    background_base, background_strong, background_style, background_style_of, background_weak,
    extended_palette_pair, primary_base, primary_weak, text_and_background_style,
    text_and_background_style_of,
};

verus! {

/// A pair of colours of a theme's extended palette.
#[derive(Clone, Copy, Debug, PartialEq, Eq, Structural)]
pub enum PaletteRole {
    /// `background.base`
    BackgroundBase,
    /// `background.weak`
    BackgroundWeak,
    /// `background.strong`
    BackgroundStrong,
    /// `primary.base`
    PrimaryBase,
    /// `primary.weak`
    PrimaryWeak,
}

/// How the default style fills a part of the table with a palette pair.
#[derive(Clone, Copy, Debug, PartialEq, Eq, Structural)]
pub enum Fill {
    /// The pair's colour as background and its text colour for the text.
    TextAndBackground(PaletteRole),
    /// The pair's colour as background; the text colour is left unset.
    BackgroundOnly(PaletteRole),
}

/// A part of the table that a [`Catalog`] gives an appearance to.
#[derive(Clone, Copy, Debug, PartialEq, Eq, Structural)]
pub enum Part {
    /// The header row.
    Header,
    /// The footer row.
    Footer,
    /// The body row with this index, not selected.
    Row(usize),
    /// The body row with this index, selected.
    SelectedRow(usize),
    /// A column divider; `true` while hovered or dragged.
    Divider(bool),
}

/// The fill of each part in the default style of iced's themes: a strong
/// background for header and footer, alternating base and weak backgrounds
/// for the rows (even indices base), the weak primary pair for a selected
/// row, and for a divider the base primary colour while hovered, else the
/// weak background colour.
pub open spec fn default_fill_of(part: Part) -> Fill {
    match part {
        Part::Header => Fill::TextAndBackground(PaletteRole::BackgroundStrong),
        Part::Footer => Fill::TextAndBackground(PaletteRole::BackgroundStrong),
        Part::Row(index) => if index % 2 == 0 {
            Fill::TextAndBackground(PaletteRole::BackgroundBase)
        } else {
            Fill::TextAndBackground(PaletteRole::BackgroundWeak)
        },
        Part::SelectedRow(_) => Fill::TextAndBackground(PaletteRole::PrimaryWeak),
        Part::Divider(hovered) => if hovered {
            Fill::BackgroundOnly(PaletteRole::PrimaryBase)
        } else {
            Fill::BackgroundOnly(PaletteRole::BackgroundWeak)
        },
    }
}

/// Chooses the palette pair, and how it fills, for a part of the table in
/// the default style.
pub fn default_fill(part: Part) -> (fill: Fill)
    ensures
        fill == default_fill_of(part),
{
    match part {
        Part::Header => Fill::TextAndBackground(PaletteRole::BackgroundStrong),
        Part::Footer => Fill::TextAndBackground(PaletteRole::BackgroundStrong),
        Part::Row(index) => {
            if index % 2 == 0 {
                Fill::TextAndBackground(PaletteRole::BackgroundBase)
            } else {
                Fill::TextAndBackground(PaletteRole::BackgroundWeak)
            }
        },
        Part::SelectedRow(_) => Fill::TextAndBackground(PaletteRole::PrimaryWeak),
        Part::Divider(hovered) => {
            if hovered {
                Fill::BackgroundOnly(PaletteRole::PrimaryBase)
            } else {
                Fill::BackgroundOnly(PaletteRole::BackgroundWeak)
            }
        },
    }
}

/// The footer is styled as the header.
pub proof fn footer_matches_header()
    ensures
        default_fill_of(Part::Footer) == default_fill_of(Part::Header),
{
}

/// Rows whose indices have the same parity get the same fill.
pub proof fn same_parity_rows_match(i: usize, j: usize)
    requires
        i % 2 == j % 2,
    ensures
        default_fill_of(Part::Row(i)) == default_fill_of(Part::Row(j)),
{
}

/// Neighbouring rows get different fills: the row colours alternate.
pub proof fn neighbouring_rows_differ(i: usize)
    requires
        i < usize::MAX,
    ensures
        default_fill_of(Part::Row(i)) != default_fill_of(Part::Row((i + 1) as usize)),
{
}

/// A selected row is filled otherwise than any row that is not selected.
pub proof fn selected_row_differs_from_rows(i: usize, j: usize)
    ensures
        default_fill_of(Part::SelectedRow(i)) != default_fill_of(Part::Row(j)),
{
}

/// A hovered divider is filled otherwise than one that is not.
pub proof fn hovered_divider_differs()
    ensures
        default_fill_of(Part::Divider(true)) != default_fill_of(Part::Divider(false)),
{
}

/// Every part but a divider sets both a background and a text colour; a
/// divider sets only a background.
pub proof fn text_colour_set_except_on_dividers(part: Part)
    ensures
        (default_fill_of(part) is TextAndBackground) <==> !(part is Divider),
{
}

/// The container style that a fill gives with the theme's palette: the
/// pair that the fill's role names, as background and text colour or as
/// background alone.
pub open spec fn fill_style_of(theme: Theme, fill: Fill) -> container::Style {
    match fill {
        Fill::TextAndBackground(role) => text_and_background_style_of(
            extended_palette_pair(theme, role),
        ),
        Fill::BackgroundOnly(role) => background_style_of(extended_palette_pair(theme, role)),
    }
}

/// The style that the default catalog gives a part of the table with a theme.
pub open spec fn default_style_of(theme: Theme, part: Part) -> container::Style {
    fill_style_of(theme, default_fill_of(part))
}

/// The palette pair of a role, looked up in the theme's extended palette.
pub fn palette_pair(theme: &Theme, role: PaletteRole) -> (pair: Pair)
    ensures
        pair == extended_palette_pair(*theme, role),
{
    match role {
        PaletteRole::BackgroundBase => background_base(theme),
        PaletteRole::BackgroundWeak => background_weak(theme),
        PaletteRole::BackgroundStrong => background_strong(theme),
        PaletteRole::PrimaryBase => primary_base(theme),
        PaletteRole::PrimaryWeak => primary_weak(theme),
    }
}

/// The container style that a fill gives with the theme's palette.
pub fn fill_style(theme: &Theme, fill: Fill) -> (style: container::Style)
    ensures
        style == fill_style_of(*theme, fill),
{
    match fill {
        Fill::TextAndBackground(role) => text_and_background_style(palette_pair(theme, role)),
        Fill::BackgroundOnly(role) => background_style(palette_pair(theme, role)),
    }
}

/// With any theme, the header and the footer take the strong background
/// pair, as background and text colour.
pub proof fn theme_header_and_footer_style(theme: Theme)
    ensures
        default_style_of(theme, Part::Header) == text_and_background_style_of(
            extended_palette_pair(theme, PaletteRole::BackgroundStrong),
        ),
        default_style_of(theme, Part::Footer) == text_and_background_style_of(
            extended_palette_pair(theme, PaletteRole::BackgroundStrong),
        ),
{
}

/// With any theme, every body row sets both background and text colour from
/// its pair: the base background pair on even rows, the weak one on odd rows.
pub proof fn theme_row_style(theme: Theme, index: usize)
    ensures
        index % 2 == 0 ==> default_style_of(theme, Part::Row(index)) == text_and_background_style_of(
            extended_palette_pair(theme, PaletteRole::BackgroundBase),
        ),
        index % 2 == 1 ==> default_style_of(theme, Part::Row(index)) == text_and_background_style_of(
            extended_palette_pair(theme, PaletteRole::BackgroundWeak),
        ),
{
}

/// With any theme, a selected row takes the weak primary pair as background
/// and text colour.
pub proof fn theme_selected_row_style(theme: Theme, index: usize)
    ensures
        default_style_of(theme, Part::SelectedRow(index)) == text_and_background_style_of(
            extended_palette_pair(theme, PaletteRole::PrimaryWeak),
        ),
{
}

/// With any theme, a divider sets only a background: the base primary colour
/// while hovered, the weak background colour otherwise.
pub proof fn theme_divider_style(theme: Theme, hovered: bool)
    ensures
        hovered ==> default_style_of(theme, Part::Divider(hovered)) == background_style_of(
            extended_palette_pair(theme, PaletteRole::PrimaryBase),
        ),
        !hovered ==> default_style_of(theme, Part::Divider(hovered)) == background_style_of(
            extended_palette_pair(theme, PaletteRole::BackgroundWeak),
        ),
{
}

/// With any theme, the default footer style is the header style.
pub proof fn theme_footer_matches_header(theme: Theme)
    ensures
        default_style_of(theme, Part::Footer) == default_style_of(theme, Part::Header),
{
}

/// With any theme, rows whose indices have the same parity get the same
/// default style.
pub proof fn theme_same_parity_rows_match(theme: Theme, i: usize, j: usize)
    requires
        i % 2 == j % 2,
    ensures
        default_style_of(theme, Part::Row(i)) == default_style_of(theme, Part::Row(j)),
{
}

/// With any theme, all selected rows get the same default style, whatever
/// their index.
pub proof fn theme_selected_rows_match(theme: Theme, i: usize, j: usize)
    ensures
        default_style_of(theme, Part::SelectedRow(i)) == default_style_of(theme, Part::SelectedRow(j)),
{
}

/// Controls the visual appearance of a table.
///
/// Implement this trait on your theme type to customize how headers,
/// footers, rows, and column dividers are rendered. An implementation is
/// provided for iced's `Theme`, with a strong background for the
/// header and footer, alternating row colours, and a highlight on hovered
/// dividers.
pub trait Catalog {
    /// The style value that selects a particular appearance variant.
    type Style: Default;

    /// The container style of the header row.
    fn header(&self, style: &Self::Style) -> container::Style;

    /// The container style of the footer row.
    fn footer(&self, style: &Self::Style) -> container::Style;

    /// The container style of the body row at `index`; the index can be used
    /// to alternate row colours.
    fn row(&self, style: &Self::Style, index: usize) -> container::Style;

    /// The container style of the selected body row at `index`; by default
    /// that of [`row`](Self::row).
    fn selected_row(&self, style: &Self::Style, index: usize) -> (r: container::Style)
        default_ensures
            call_ensures(Self::row, (self, style, index), r),
    {
        self.row(style, index)
    }

    /// The container style of a column divider; `hovered` is `true` while the
    /// cursor is over the divider or a drag is in progress.
    fn divider(&self, style: &Self::Style, hovered: bool) -> container::Style;
}

impl Catalog for Theme {
    type Style = ();

    fn header(&self, _style: &()) -> (r: container::Style)
        ensures
            r == default_style_of(*self, Part::Header),
            r == text_and_background_style_of(extended_palette_pair(*self, PaletteRole::BackgroundStrong)),
    {
        fill_style(self, default_fill(Part::Header))
    }

    fn footer(&self, _style: &()) -> (r: container::Style)
        ensures
            r == default_style_of(*self, Part::Footer),
            r == text_and_background_style_of(extended_palette_pair(*self, PaletteRole::BackgroundStrong)),
    {
        fill_style(self, default_fill(Part::Footer))
    }

    fn row(&self, _style: &(), index: usize) -> (r: container::Style)
        ensures
            r == default_style_of(*self, Part::Row(index)),
            r == text_and_background_style_of(extended_palette_pair(*self, if index % 2 == 0 { PaletteRole::BackgroundBase } else { PaletteRole::BackgroundWeak })),
    {
        fill_style(self, default_fill(Part::Row(index)))
    }

    fn selected_row(&self, _style: &(), index: usize) -> (r: container::Style)
        ensures
            r == default_style_of(*self, Part::SelectedRow(index)),
            r == text_and_background_style_of(extended_palette_pair(*self, PaletteRole::PrimaryWeak)),
    {
        fill_style(self, default_fill(Part::SelectedRow(index)))
    }

    fn divider(&self, _style: &(), hovered: bool) -> (r: container::Style)
        ensures
            r == default_style_of(*self, Part::Divider(hovered)),
            r == background_style_of(extended_palette_pair(*self, if hovered { PaletteRole::PrimaryBase } else { PaletteRole::BackgroundWeak })),
    {
        fill_style(self, default_fill(Part::Divider(hovered)))
    }
}

} // verus!
