//! Webpage defacement detection: the decisions and similarity arithmetic of
//! a monitor that fingerprints pages with ssdeep fuzzy hashes of their HTML
//! and perceptual hashes of their screenshots.
pub mod fuzzy;
pub mod phash;
pub mod text;
pub mod monitor;
pub mod fuzzy_watch;
