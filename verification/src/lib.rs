//! Verified control and state logic of the hardkick kick-drum synthesizer:
//! the noise generator, the lookahead delay line of the limiter, the tap
//! history of the oversampling filters, the retrigger / onset-ramp
//! scheduling of a kick voice, and the selection logic of the editor's
//! multi-position switches.

pub mod dsp;
pub mod switch;
pub mod voice;
