//! Fetch a zip archive of sample data, extract it under a directory named
//! after the dataset, and summarise what was extracted.
//!
//! The library holds the decisions: where the archive and the dataset live,
//! when a download is needed, how a failure ends the fetch, and how the walk of
//! the extracted tree becomes a [`SampleData`]. The caller performs each step
//! that touches the network or the filesystem and reports its outcome.
pub mod fetch;
pub mod runs;
pub mod source;
pub mod summary;

pub use fetch::{Action, Event, FetchError, Fetcher, Stage};
pub use source::{
    archive_name, cargo_sources, data_path, from_url, is_safe_name, linux_kernel, DataSource,
};
pub use summary::{Entry, SampleData};
