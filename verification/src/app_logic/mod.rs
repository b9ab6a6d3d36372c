//! What the interface shows and how it reacts, as plain values: the
//! interface layer copies these into its own widgets.

pub mod calendar;
