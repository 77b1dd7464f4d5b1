# iced_table2

A table widget for [iced](https://github.com/iced-rs/iced) 0.14, with
synchronized header, body and footer scrolling, resizable columns, row
selection and a themable appearance.

- `src/` is the verified library: the layout of a table (`layout`), the
  decisions of a column divider (`divider`), and the `Catalog` trait with the
  default style of iced's themes (`style`, over iced's palette in `palette`).
- `app/` builds the iced widgets from those decisions: the `Table` builder,
  its conversion into an `Element`, the row wrapper and the divider widget.
  Column widths and offsets are `f32` values and are handled there.
- `tests/` exercises the library.
