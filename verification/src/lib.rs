//! A verified core for a terminal music-library manager: formatting helpers,
//! sorting and filtering of track lists, tag-edit planning, integrity
//! classification, duplicate detection, configuration normalisation, the
//! command line, and the key-handling state machine of the interface.
use vstd::prelude::*;

pub mod text;
pub mod formatters;
pub mod track;
pub mod sort;
pub mod app;
pub mod cli;
pub mod config;
pub mod reader;
pub mod tags;
pub mod undo;
pub mod export;
pub mod enrich;
pub mod keys;
pub mod navigate;
pub mod input;
pub mod events;
pub mod api;
pub mod panel;
pub mod screen;

verus! {
} // verus!
