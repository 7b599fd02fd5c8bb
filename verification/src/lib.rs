//! The logic behind a one-page web service that shows a pair of geographic
//! coordinates, the text of a data file and the day on which that file was
//! last modified.
//!
//! Nothing here touches the file system or the network. A caller reads the
//! file, hands over bytes and a modification time, and receives what the page
//! is to show, or the failure to report.

pub mod config;
pub mod context;
pub mod page;
pub mod snapshot;
