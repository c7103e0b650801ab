//! Plans and rules for creating a WPILib robot project: the cache layout,
//! the lazily prompted configuration, the downloads, the installation steps
//! and the code that the crate's derives generate.

pub mod text;
pub mod choices;
pub mod config;
pub mod cache;
pub mod fetcher;
pub mod unpack;
pub mod derive;
