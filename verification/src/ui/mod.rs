//! The application's state and what its screens show.

pub mod app;
pub mod laws;
pub mod page;
pub mod step;
pub mod views;
