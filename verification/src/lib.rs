//! Declarative package installation front-end.
//!
//! A configuration document names a package manager and a list of packages;
//! the library validates the document, resolves the manager against a fixed
//! registry of descriptors, and assembles the exact command line that
//! installs the packages. The reverse path turns a captured list of
//! installed packages back into configuration text that parses to the same
//! package list.
pub mod args;
pub mod config;
pub mod generate;
pub mod generate_pacman;
pub mod generate_yay;
pub mod install;
pub mod util;
