# parq

A terminal viewer for the metadata of Parquet files, with its logic verified by Verus.

- `src/` is the verified library:
  - `model.rs`: what the viewer shows of a file (row groups, column chunks, statistics, schema tree);
  - `footer.rs`: the footer as the reader hands it over, and the text made of it
    (logical types, statistics bounds, schema descriptions), ending in `ParquetFileData::from_footer`;
  - `render.rs`: the styled lines of each tab and the part of them a viewport shows;
  - `app.rs`: the tabs, the viewer's state, and what key and mouse events do to it, with its laws;
  - `format.rs`, `text.rs`: decimal text, thousands separators, joining;
  - `source.rs`: local paths and `s3://` URLs;
  - `args.rs`: the command line.
- `app/` is the program around it: reading files, drawing with ratatui, reading crossterm events.
- `tests/` runs the library on concrete values.
