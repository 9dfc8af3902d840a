//! Format-selection policy for a batch video downloader: classify the
//! formats that a video host offers, pick the format expression handed to
//! the downloader, and the small decisions around each listed URL.

pub mod decide;
pub mod formats;
pub mod hosts;
pub mod listing;
pub mod probe;
pub mod select;
pub mod text;
