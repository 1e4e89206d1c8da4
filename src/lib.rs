//! An in-memory table of delimited-text records, with the widest field of each
//! column tracked for display and windowed views of the records.
mod csv_data;
mod laws;
mod model;
mod reading;
mod rows;

pub use csv_data::{built, CsvData, ParseError};
pub use laws::{law_build_counts_records, law_column_width_is_max, law_round_trip, law_window_len};
pub use reading::parsed_csv;
pub use rows::{cell_lines, row_cells, row_cells_of};
pub use model::{
    column_max, column_widths, field_len, record_view, records_view, table_of, window, window_end,
    window_start, TableModel,
};
