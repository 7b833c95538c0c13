//! Package scripting and dependency resolution for a game-modification
//! package manager.
//!
//! Packages describe their metadata and their relations to other packages
//! in a small scripting language, or in a declarative document. Given an
//! installation context (the version of the game, the side, the loaders,
//! the enabled features) the library resolves a consistent, conflict-free
//! and ordered set of packages to install.
//!
//! The parts of the library, from the leaves to the root:
//!
//! - [`lex`] turns text into positioned tokens;
//! - [`conditions`], [`instruction`], [`instr_parse`] and [`parser`] build
//!   routines of instructions from tokens, as [`parse::Parsed`] holds them;
//! - [`eval`] evaluates a script or a declarative package against a context
//!   and gathers addon requests, relations, notices and commands;
//! - [`resolve`] evaluates the packages that are needed, detects conflicts
//!   and cycles, and orders the packages; [`guarantees`] proves what every
//!   successful resolution guarantees.
//!
//! The remaining modules hold what the package manager needs around this
//! core: versions, assets, profiles, options and the configuration.

pub mod text;
pub mod lex;
pub mod value;
pub mod versions;
pub mod asset;
pub mod modifications;
pub mod instance;
pub mod lang;
pub mod pkg;
pub mod instruction;
pub mod conditions;
pub mod instr_parse;
pub mod parse;
pub mod parser;
pub mod metadata;
pub mod eval;
pub mod package;
pub mod resolve;
pub mod guarantees;
pub mod core_packages;
pub mod config;
pub mod commands;
pub mod profile;
pub mod java;
pub mod net;
pub mod data_version;
pub mod options;
pub mod options_write;
