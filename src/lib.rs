//! Selecting filesystem paths, persisting the selection, and applying it by
//! copying or moving the selected items into a working directory.

pub mod apply;
pub mod cli;
pub mod config;
pub mod error;
pub mod paths;
pub mod pattern;
pub mod picker;
pub mod resolve;
pub mod select;
pub mod store;

use vstd::prelude::*;

verus! {

/// The character sequences of a sequence of strings.
pub open spec fn string_views(v: Seq<String>) -> Seq<Seq<char>> {
    v.map_values(|s: String| s@)
}

} // verus!
