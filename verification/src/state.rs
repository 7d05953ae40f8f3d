//! Per-target texture binding state.
//!
//! A [`TargetBindings`] value records, for each texture binding target,
//! the handle occupying it (0 when none). The backend keeps two of these:
//! the device's actual state and its cache of it; the cache is what lets
//! redundant device bind calls be elided.

use vstd::prelude::*;

use crate::dim::Dim;

verus! {

/// The handle bound to each texture binding target; 0 means none.
#[derive(Clone, Copy, Debug, PartialEq, Eq, Structural)]
pub struct TargetBindings {
    /// Handle bound to the 1D target.
    pub tex_1d: u32,
    /// Handle bound to the 2D target.
    pub tex_2d: u32,
    /// Handle bound to the 3D target.
    pub tex_3d: u32,
    /// Handle bound to the cubemap target.
    pub cubemap: u32,
    /// Handle bound to the 1D-array target.
    pub tex_1d_array: u32,
    /// Handle bound to the 2D-array target.
    pub tex_2d_array: u32,
}

impl TargetBindings {
    /// The handle recorded for a target.
    pub open spec fn spec_bound(self, target: Dim) -> u32 {
        match target {
            Dim::Dim1 => self.tex_1d,
            Dim::Dim2 => self.tex_2d,
            Dim::Dim3 => self.tex_3d,
            Dim::Cubemap => self.cubemap,
            Dim::Dim1Array => self.tex_1d_array,
            Dim::Dim2Array => self.tex_2d_array,
        }
    }

    /// Fresh state: nothing bound anywhere.
    pub fn new() -> (r: Self)
        ensures
            forall|t: Dim| #[trigger] r.spec_bound(t) == 0u32,
    {
        TargetBindings {
            tex_1d: 0,
            tex_2d: 0,
            tex_3d: 0,
            cubemap: 0,
            tex_1d_array: 0,
            tex_2d_array: 0,
        }
    }

    /// The handle recorded for a target.
    pub fn get(&self, target: Dim) -> (h: u32)
        ensures
            h == self.spec_bound(target),
    {
        match target {
            Dim::Dim1 => self.tex_1d,
            Dim::Dim2 => self.tex_2d,
            Dim::Dim3 => self.tex_3d,
            Dim::Cubemap => self.cubemap,
            Dim::Dim1Array => self.tex_1d_array,
            Dim::Dim2Array => self.tex_2d_array,
        }
    }

    /// Record `handle` at `target`, leaving every other target untouched.
    pub fn set(&mut self, target: Dim, handle: u32)
        ensures
            final(self).spec_bound(target) == handle,
            forall|t: Dim|
                t != target ==> #[trigger] final(self).spec_bound(t) == old(self).spec_bound(t),
    {
        match target {
            Dim::Dim1 => self.tex_1d = handle,
            Dim::Dim2 => self.tex_2d = handle,
            Dim::Dim3 => self.tex_3d = handle,
            Dim::Cubemap => self.cubemap = handle,
            Dim::Dim1Array => self.tex_1d_array = handle,
            Dim::Dim2Array => self.tex_2d_array = handle,
        }
    }

    /// Forget a handle wherever it is recorded, so that a later reuse of
    /// the same handle value cannot be misread as already bound.
    pub fn clear_handle(&mut self, handle: u32)
        ensures
            forall|t: Dim|
                #[trigger] final(self).spec_bound(t) == if old(self).spec_bound(t) == handle {
                    0u32
                } else {
                    old(self).spec_bound(t)
                },
    {
        if self.tex_1d == handle {
            self.tex_1d = 0;
        }
        if self.tex_2d == handle {
            self.tex_2d = 0;
        }
        if self.tex_3d == handle {
            self.tex_3d = 0;
        }
        if self.cubemap == handle {
            self.cubemap = 0;
        }
        if self.tex_1d_array == handle {
            self.tex_1d_array = 0;
        }
        if self.tex_2d_array == handle {
            self.tex_2d_array = 0;
        }
    }
}

} // verus!
