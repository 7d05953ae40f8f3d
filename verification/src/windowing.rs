//! Window configuration types handed to a windowing collaborator.

use vstd::prelude::*;

verus! {

/// Dimension metrics of a window.
#[derive(Clone, Copy, Debug, Eq, PartialEq, Structural)]
pub enum WindowDim {
    /// Windowed mode.
    Windowed {
        /// Width of the window.
        width: u32,
        /// Height of the window.
        height: u32,
    },
    /// Fullscreen mode, at the primary monitor's resolution.
    Fullscreen,
    /// Fullscreen mode with a restricted viewport dimension.
    FullscreenRestricted {
        /// Width of the viewport.
        width: u32,
        /// Height of the viewport.
        height: u32,
    },
}

/// Window options: the dimension and the multisampling sample count.
#[derive(Clone, Copy, Debug, Eq, PartialEq, Structural)]
pub struct WindowOpt {
    /// Dimension of the window.
    pub dim: WindowDim,
    /// Number of samples for multisampling; `None` disables it.
    pub num_samples: Option<u32>,
}

impl Default for WindowOpt {
    /// A 960 x 540 window without multisampling.
    fn default() -> (w: WindowOpt)
        ensures
            w.dim == (WindowDim::Windowed { width: 960u32, height: 540u32 }),
            w.num_samples is None,
    {
        WindowOpt { dim: WindowDim::Windowed { width: 960, height: 540 }, num_samples: None }
    }
}

impl WindowOpt {
    /// Set the dimension of the window.
    pub fn set_dim(self, dim: WindowDim) -> (w: Self)
        ensures
            w.dim == dim,
            w.num_samples == self.num_samples,
    {
        WindowOpt { dim, ..self }
    }

    /// Get the dimension of the window.
    pub fn dim(&self) -> (d: &WindowDim)
        ensures
            d == self.dim,
    {
        &self.dim
    }

    /// Set the number of samples to use for multisampling; `None`
    /// disables it.
    pub fn set_num_samples(self, num_samples: Option<u32>) -> (w: Self)
        ensures
            w.dim == self.dim,
            w.num_samples == num_samples,
    {
        WindowOpt { num_samples, ..self }
    }

    /// Get the number of samples to use in multisampling, if any.
    pub fn num_samples(&self) -> (n: &Option<u32>)
        ensures
            n == self.num_samples,
    {
        &self.num_samples
    }
}

} // verus!
