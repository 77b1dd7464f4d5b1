use iced_core::{Background, Theme};
use iced_table2::layout::Target;
use iced_table2::style::{default_fill, fill_style, palette_pair, Fill, PaletteRole, Part};
use iced_table2::Catalog;
use iced_widget::container;

fn themes() -> Vec<Theme> {
    vec![Theme::Light, Theme::Dark, Theme::Nord, Theme::GruvboxDark, Theme::Ferra]
}

#[test]
fn default_fill_of_each_part() {
    assert_eq!(default_fill(Part::Header), Fill::TextAndBackground(PaletteRole::BackgroundStrong));
    assert_eq!(default_fill(Part::Footer), Fill::TextAndBackground(PaletteRole::BackgroundStrong));
    assert_eq!(default_fill(Part::Row(0)), Fill::TextAndBackground(PaletteRole::BackgroundBase));
    assert_eq!(default_fill(Part::Row(7)), Fill::TextAndBackground(PaletteRole::BackgroundWeak));
    assert_eq!(default_fill(Part::Row(usize::MAX)), Fill::TextAndBackground(PaletteRole::BackgroundWeak));
    assert_eq!(default_fill(Part::SelectedRow(3)), Fill::TextAndBackground(PaletteRole::PrimaryWeak));
    assert_eq!(default_fill(Part::Divider(true)), Fill::BackgroundOnly(PaletteRole::PrimaryBase));
    assert_eq!(default_fill(Part::Divider(false)), Fill::BackgroundOnly(PaletteRole::BackgroundWeak));
}

#[test]
fn rows_alternate_by_parity() {
    for i in 0..20usize {
        assert_eq!(default_fill(Part::Row(i)), default_fill(Part::Row(i + 2)));
        assert_ne!(default_fill(Part::Row(i)), default_fill(Part::Row(i + 1)));
        assert_ne!(default_fill(Part::SelectedRow(i)), default_fill(Part::Row(i)));
    }
}

#[test]
fn palette_pairs_come_from_the_extended_palette() {
    for theme in themes() {
        let extended = theme.extended_palette();
        assert_eq!(palette_pair(&theme, PaletteRole::BackgroundBase), extended.background.base);
        assert_eq!(palette_pair(&theme, PaletteRole::BackgroundWeak), extended.background.weak);
        assert_eq!(palette_pair(&theme, PaletteRole::BackgroundStrong), extended.background.strong);
        assert_eq!(palette_pair(&theme, PaletteRole::PrimaryBase), extended.primary.base);
        assert_eq!(palette_pair(&theme, PaletteRole::PrimaryWeak), extended.primary.weak);
    }
}

#[test]
fn fill_style_sets_background_and_text() {
    let theme = Theme::Dark;
    let pair = theme.extended_palette().background.strong;
    let style = fill_style(&theme, Fill::TextAndBackground(PaletteRole::BackgroundStrong));
    assert_eq!(style.background, Some(Background::Color(pair.color)));
    assert_eq!(style.text_color, Some(pair.text));

    let pair = theme.extended_palette().primary.base;
    let style = fill_style(&theme, Fill::BackgroundOnly(PaletteRole::PrimaryBase));
    assert_eq!(style.background, Some(Background::Color(pair.color)));
    assert_eq!(style.text_color, None);
}

#[test]
fn theme_styles_use_the_expected_pairs() {
    for theme in themes() {
        let extended = theme.extended_palette();
        let header = theme.header(&());
        assert_eq!(header.background, Some(Background::Color(extended.background.strong.color)));
        assert_eq!(header.text_color, Some(extended.background.strong.text));

        let even = theme.row(&(), 4);
        assert_eq!(even.background, Some(Background::Color(extended.background.base.color)));
        assert_eq!(even.text_color, Some(extended.background.base.text));

        let odd = theme.row(&(), 5);
        assert_eq!(odd.background, Some(Background::Color(extended.background.weak.color)));

        let selected = theme.selected_row(&(), 5);
        assert_eq!(selected.background, Some(Background::Color(extended.primary.weak.color)));
        assert_eq!(selected.text_color, Some(extended.primary.weak.text));

        let hovered = theme.divider(&(), true);
        assert_eq!(hovered.background, Some(Background::Color(extended.primary.base.color)));
        assert_eq!(hovered.text_color, None);

        let idle = theme.divider(&(), false);
        assert_eq!(idle.background, Some(Background::Color(extended.background.weak.color)));
        assert_eq!(idle.text_color, None);

        assert_eq!(format!("{:?}", theme.footer(&())), format!("{:?}", header));
    }
}

struct Plain;

impl Catalog for Plain {
    type Style = u8;

    fn header(&self, _style: &u8) -> container::Style {
        container::Style::default().color(iced_core::Color::BLACK)
    }

    fn footer(&self, _style: &u8) -> container::Style {
        container::Style::default().color(iced_core::Color::WHITE)
    }

    fn row(&self, style: &u8, index: usize) -> container::Style {
        let shade = (*style as f32 + index as f32) / 100.0;
        container::Style::default().background(iced_core::Color::from_rgb(shade, shade, shade))
    }

    fn divider(&self, _style: &u8, hovered: bool) -> container::Style {
        if hovered {
            container::Style::default().background(iced_core::Color::BLACK)
        } else {
            container::Style::default()
        }
    }
}

#[test]
fn selected_row_falls_back_to_row_by_default() {
    let catalog = Plain;
    for index in 0..5usize {
        assert_eq!(
            format!("{:?}", catalog.selected_row(&3, index)),
            format!("{:?}", catalog.row(&3, index))
        );
    }
}

#[test]
fn target_appearance_dispatches_to_the_catalog() {
    let catalog = Plain;
    let style = 2u8;
    let expect_same = |target: Target, expected: container::Style| {
        assert_eq!(
            format!("{:?}", target.appearance(&catalog, &style)),
            format!("{:?}", expected)
        );
    };
    expect_same(Target::Header, catalog.header(&style));
    expect_same(Target::Footer, catalog.footer(&style));
    expect_same(Target::Row { index: 9 }, catalog.row(&style, 9));
    expect_same(Target::SelectedRow { index: 4 }, catalog.selected_row(&style, 4));
    assert_ne!(
        format!("{:?}", Target::Row { index: 9 }.appearance(&catalog, &style)),
        format!("{:?}", Target::Row { index: 8 }.appearance(&catalog, &style))
    );

    let theme = Theme::Light;
    assert_eq!(
        format!("{:?}", Target::SelectedRow { index: 1 }.appearance(&theme, &())),
        format!("{:?}", theme.selected_row(&(), 1))
    );
}
