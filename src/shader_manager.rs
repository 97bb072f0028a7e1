use vstd::prelude::*;

use crate::FilterType;

verus! {

/// One compiled program per filter, built once and never changed. The
/// program type is the backend's (a shader module on a GPU).
pub struct ShaderManager<S> {
    pub original: S,
    pub ascii_art: S,
    pub cross_hatch: S,
    pub edge_detection: S,
}

impl<S> ShaderManager<S> {
    /// The program of filter `ty`.
    pub open spec fn program(&self, ty: FilterType) -> &S {
        match ty {
            FilterType::Original => &self.original,
            FilterType::AsciiArt => &self.ascii_art,
            FilterType::CrossHatch => &self.cross_hatch,
            FilterType::EdgeDetection => &self.edge_detection,
        }
    }

    pub fn new(original: S, ascii_art: S, cross_hatch: S, edge_detection: S) -> (r: Self)
        ensures
            r.original == original,
            r.ascii_art == ascii_art,
            r.cross_hatch == cross_hatch,
            r.edge_detection == edge_detection,
    {
        ShaderManager { original, ascii_art, cross_hatch, edge_detection }
    }

    /// The program of filter `ty`.
    pub fn get_shader_ref(&self, ty: FilterType) -> (r: &S)
        ensures
            r == self.program(ty),
    {
        match ty {
            FilterType::Original => &self.original,
            FilterType::AsciiArt => &self.ascii_art,
            FilterType::CrossHatch => &self.cross_hatch,
            FilterType::EdgeDetection => &self.edge_detection,
        }
    }
}

} // verus!
