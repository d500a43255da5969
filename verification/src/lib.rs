//! Sorting files by rules.
//!
//! Files found in one directory are held against the rules of a
//! configuration. A rule names the files it applies to, by a pattern on the
//! file name and by conditions on the file, and says where such a file goes:
//! under which root, in which directory, and under which name. This crate
//! decides; reading directories and files, and moving, copying and converting
//! them, is left to the caller, who hands over what was read and carries out
//! what was decided.
//!
//! The contracts speak of texts as sequences of characters, and of what the
//! `regex`, `chrono`, `glob`, `shellexpand` and `log` crates return by name.

pub mod builder;
pub mod config;
pub mod content;
pub mod dates;
pub mod destination;
pub mod errors;
pub mod logging;
pub mod matcher;
pub mod numbers;
pub mod paths;
pub mod pattern;
pub mod processor;
pub mod regex_engine;
pub mod rules;
pub mod text;
pub mod transformer;
pub mod workflow;
