//! Verified core of the campus reconstruction workbench.
#![allow(unused_imports)]

pub mod text;
pub mod campus;
pub mod search;
pub mod arnis;
pub mod generation;
pub mod shell;
pub mod boundary;
pub mod boundary_map;
pub mod cli;
pub mod workflow;
