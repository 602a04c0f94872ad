//! A polyphonic subtractive synthesis engine: fixed-point signal-processing
//! devices with chunked, allocation-free processing, a modulation matrix,
//! a voice allocator, and the process-wide context that gates the
//! fixed-point domain.
use vstd::prelude::*;

pub mod fixedmath;
pub mod devices;
pub mod context;
pub mod modulation;
pub mod voice;
pub mod voicealloc;

pub use fixedmath::EnvParamFxP;
pub use fixedmath::NoteFxP;
pub use fixedmath::SampleFxP;
pub use fixedmath::ScalarFxP;
pub use fixedmath::USampleFxP;
pub use voice::VoiceFxP;

verus! {

/// The capacity, in samples, of every device's internal output buffers.
pub const STATIC_BUFFER_SIZE: usize = 256;

/// The smaller of two integers.
pub open spec fn min_int(a: int, b: int) -> int {
    if a < b {
        a
    } else {
        b
    }
}

/// The number of samples a device call produces: the shortest input, capped
/// at the buffer capacity.
pub open spec fn chunk_len(a: int, b: int) -> int {
    let m = if a < b { a } else { b };
    if m < STATIC_BUFFER_SIZE { m } else { STATIC_BUFFER_SIZE as int }
}

} // verus!
