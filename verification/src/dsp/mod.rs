pub mod distortion;
pub mod limiter;
pub mod noise;
pub mod oversample;

pub use distortion::Shaper;
pub use limiter::{DelayLine, LOOKAHEAD};
pub use noise::Noise;
pub use oversample::{History, OsFactor, PHASE_LEN};
