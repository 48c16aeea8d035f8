//! A launcher for machine-learning training scripts: it extracts the
//! command-line parameters that a Python script declares, keeps them in a
//! training configuration, merges configurations and builds the command line.

pub mod text;
pub mod parser;
pub mod literals;
pub mod config;
pub mod input;
pub mod app;
pub mod mode_selection;
pub mod properties;
