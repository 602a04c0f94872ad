//! Signal-processing devices.  Every device writes into fixed-capacity
//! buffers that it owns, and returns a view of the samples it produced.
pub mod amp;
pub mod env;
pub mod filt;
pub mod lfo;
pub mod osc;
pub mod mixosc;
pub mod modfilt;

pub use amp::AmpFxP;
pub use env::{EnvFxP, EnvParamsFxP, EnvStage};
pub use modfilt::{ModFiltFxP, ModFiltParamsFxP};
pub use mixosc::{MixOscFxP, MixOscParamsFxP, OscLevelsFxP};
pub use osc::{OscFxP, OscOutputFxP, OscParamsFxP};
pub use lfo::{LfoFxP, LfoWave};
pub use filt::{FiltFxP, FiltOutput, FiltOutputFxP, FiltParams, FiltParamsFxP};
