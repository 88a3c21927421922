//! Bookkeeping for an interactive 4x4 transform editor: the display modes of
//! the per-cell controls, the table of control states keyed by id, the layout
//! of the matrix grid, and the window and scale settings of the overlay.
pub mod ctrl;
pub mod grid;
pub mod mode;
pub mod settings;
