//! Theme detection, translucency strategy selection and themed background
//! painting for a single top-level window.
//!
//! The library holds every decision; the windowing host performs the
//! operating-system calls it is asked for and reports their results back.

pub mod composition;
pub mod controller;
pub mod paint;
pub mod theme;
