//! The iced types that the default table style carries through, and the
//! palette look-ups and style constructors of iced that it calls.
use vstd::prelude::*;

use iced_core::theme::palette::Pair;
use iced_core::Theme;
use iced_widget::container;

use crate::style::PaletteRole;

verus! {

/// iced's built-in theme; opaque here, it is only handed to iced's own functions.
#[verifier::external_type_specification]
#[verifier::external_body]
pub struct ExTheme(iced_core::Theme);

/// A background colour with its matching text colour; opaque here.
#[verifier::external_type_specification]
#[verifier::external_body]
pub struct ExPair(iced_core::theme::palette::Pair);

/// The appearance of a container; opaque here.
#[verifier::external_type_specification]
#[verifier::external_body]
pub struct ExContainerStyle(iced_widget::container::Style);

/// The pair of `Theme::extended_palette(theme)` that `role` names (for
/// example `background.base` for `PaletteRole::BackgroundBase`). The palette
/// is a function of the theme alone: a built-in theme's fixed palette, or the
/// one a custom theme stores.
pub uninterp spec fn extended_palette_pair(theme: Theme, role: PaletteRole) -> Pair;

/// `container::Style::default().color(pair.text).background(pair.color)`.
pub uninterp spec fn text_and_background_style_of(pair: Pair) -> container::Style;

/// `container::Style::from(pair.color)`.
pub uninterp spec fn background_style_of(pair: Pair) -> container::Style;

/// `Theme::extended_palette`, then its `background.base` pair; the pair is named,
/// its colours are not stated.
#[verifier::external_body]
pub(crate) fn background_base(theme: &Theme) -> (pair: Pair)
    ensures
        pair == extended_palette_pair(*theme, PaletteRole::BackgroundBase),
{
    theme.extended_palette().background.base
}

/// `Theme::extended_palette`, then its `background.weak` pair; the pair is named,
/// its colours are not stated.
#[verifier::external_body]
pub(crate) fn background_weak(theme: &Theme) -> (pair: Pair)
    ensures
        pair == extended_palette_pair(*theme, PaletteRole::BackgroundWeak),
{
    theme.extended_palette().background.weak
}

/// `Theme::extended_palette`, then its `background.strong` pair; the pair is named,
/// its colours are not stated.
#[verifier::external_body]
pub(crate) fn background_strong(theme: &Theme) -> (pair: Pair)
    ensures
        pair == extended_palette_pair(*theme, PaletteRole::BackgroundStrong),
{
    theme.extended_palette().background.strong
}

/// `Theme::extended_palette`, then its `primary.base` pair; the pair is named,
/// its colours are not stated.
#[verifier::external_body]
pub(crate) fn primary_base(theme: &Theme) -> (pair: Pair)
    ensures
        pair == extended_palette_pair(*theme, PaletteRole::PrimaryBase),
{
    theme.extended_palette().primary.base
}

/// `Theme::extended_palette`, then its `primary.weak` pair; the pair is named,
/// its colours are not stated.
#[verifier::external_body]
pub(crate) fn primary_weak(theme: &Theme) -> (pair: Pair)
    ensures
        pair == extended_palette_pair(*theme, PaletteRole::PrimaryWeak),
{
    theme.extended_palette().primary.weak
}

/// `container::Style::default()`, then `color` with the pair's text colour
/// and `background` with the pair's colour; the style is named, its fields are
/// not stated.
#[verifier::external_body]
pub(crate) fn text_and_background_style(pair: Pair) -> (style: container::Style)
    ensures
        style == text_and_background_style_of(pair),
{
    container::Style::default().color(pair.text).background(pair.color)
}

/// `container::Style::from` the pair's colour (a default style with that background);
/// the text colour stays unset. The style is named, its fields are not stated.
#[verifier::external_body]
pub(crate) fn background_style(pair: Pair) -> (style: container::Style)
    ensures
        style == background_style_of(pair),
{
    container::Style::from(pair.color)
}

} // verus!
