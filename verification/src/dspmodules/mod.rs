pub mod dspmodule;
pub mod gain;
pub mod input;
pub mod multi_mixdown;
pub mod multi_parallel;
pub mod param;
pub mod sampledelay;
pub mod svf_bp;
