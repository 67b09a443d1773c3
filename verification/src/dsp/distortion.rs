use vstd::prelude::*;

verus! {

/// Waveshaping model for the distortion stage.
#[derive(Debug, Clone, Copy, PartialEq, Eq, Structural)]
pub enum Shaper {
    /// Asymmetric triode saturation: even and odd harmonics.
    Tube,
    /// Hard clip: sharp brickwall distortion, strong odd harmonics only.
    Hard,
    /// Sine wavefolder with first-order antiderivative antialiasing.
    Fold,
}

} // verus!
