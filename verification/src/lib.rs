//! Fetching lyrics for a music collection: which files are tracks, what is
//! asked of the lyrics service for each of them, which lyrics are kept, and
//! how a run over a directory is tallied.

pub mod cli;
pub mod lyrics;
pub mod run;
pub mod tags;
pub mod text;
pub mod tracks;
