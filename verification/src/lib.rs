//! Interactive process-list controller.
//!
//! The controller owns the current process snapshot, the selected row, a
//! modal search editor, and the kill/refresh lifecycle. Enumerating the
//! operating system's processes and asking it to terminate one go through
//! `sysinfo`; everything the controller decides about that data is verified.

pub mod controller;
pub mod record;
mod source;
pub mod text;
