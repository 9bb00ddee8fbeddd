//! Asset resolution and installation decisions for release downloads.
//!
//! The library picks the asset of a release that fits a host system, rebuilds
//! a tagged asset name, classifies a downloaded file by its name, and decides
//! what an installation writes or runs. Reading and writing files, running
//! processes and talking to the network are the caller's part.

pub mod codec;
pub mod download;
pub mod format;
pub mod installer;
pub mod matcher;
pub mod release;
pub mod text;
