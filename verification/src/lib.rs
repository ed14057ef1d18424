//! Attune: publishing APT repositories, with verified index and release generation.
use vstd::prelude::*;

pub mod api;
pub mod apt;
pub mod cli;
pub mod client;
pub mod controlplane;
pub mod digest;
pub mod migrations;
pub mod text;

verus! {

} // verus!
