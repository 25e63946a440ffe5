//! A data-browsing window: a side list of records, a notebook of data tabs
//! that each switch between a list view and a detail view, and a connection
//! form. The state of every component is modelled here as plain values with
//! verified contracts; the widgets that show it are built around this library.

pub mod text;
pub mod connection;
pub mod tab;
pub mod window;
