use vstd::prelude::*;

pub mod binding_cache;
pub mod params;
pub mod viewport;
pub mod filter_node;
pub mod canvas;
pub mod shader_manager;
pub mod memory_type;

verus! {

/// The filters that a canvas can run, one program each.
#[derive(Clone, Copy, Debug, PartialEq, Eq, Structural)]
pub enum FilterType {
    Original,
    AsciiArt,
    CrossHatch,
    EdgeDetection,
}

} // verus!
