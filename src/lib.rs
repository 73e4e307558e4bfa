//! A browsing file server's core: confining request paths to a sandbox root,
//! building sorted, icon-annotated directory listings, and mapping failures to
//! response statuses.
pub mod text;
pub mod error;
pub mod path;
pub mod order;
pub mod datetime;
pub mod icons;
pub mod models;
pub mod sort;
pub mod listing;
pub mod render;
pub mod dispatch;
pub mod config;
