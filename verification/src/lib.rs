//! Monotonic, process-local timestamps with verified arithmetic against
//! `core::time::Duration`.

pub mod time;
