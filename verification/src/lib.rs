//! Smoothee: a safer, clearer workflow over Git, with its decisions verified.
//!
//! The library holds every parser, planner and decision of the tool. The
//! binary around it (in `app/`) runs `git`, reads and writes files, prompts,
//! and hands the results to the functions here.
pub mod cli;
pub mod config;
pub mod exchange;
pub mod git;
pub mod operations;
pub mod text;
pub mod ui;
pub mod verification;

use vstd::prelude::*;

verus! {

} // verus!
