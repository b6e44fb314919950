//! Face-index resolution for the line-oriented mesh-file collaborator.
//!
//! The mesh file names vertices one-based, or negatively as an offset
//! relative to the vertices read so far; the index buffer wants zero-based
//! indices. Reading the file is the collaborator's job; the index
//! arithmetic is decided here.

use vstd::prelude::*;

verus! {

/// Resolves one face entry against the running vertex-component count:
/// a positive entry is one-based, a negative entry is taken relative to
/// `vert_cnt`. A zero entry is no valid face entry and is excluded by the
/// precondition (the caller rejects it).
pub fn resolve_face_index(v_idx: i32, vert_cnt: i32) -> (r: u32)
    requires
        v_idx != 0,
        vert_cnt >= 0,
        v_idx < 0 ==> vert_cnt - v_idx <= u32::MAX,
    ensures
        v_idx > 0 ==> r == v_idx - 1,
        v_idx < 0 ==> r == vert_cnt - v_idx,
{
    if v_idx < 0 {
        let wide: i64 = (vert_cnt as i64) - (v_idx as i64);
        wide as u32
    } else {
        (v_idx - 1) as u32
    }
}

} // verus!
