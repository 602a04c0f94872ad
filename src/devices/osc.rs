//! The oscillator: a 0.32 phase accumulator, advanced each sample by the
//! frequency of a (possibly modulated) note, from which four waveforms are
//! read at once.  The sine is the parabolic approximation `4x(1 - |x|)` of
//! `sin(pi x)`; the square's duty cycle is the shape control.
use crate::fixedmath::{floor_shr, midi_note_to_frequency, note_freq, NoteFxP, SampleFxP, ScalarFxP};
use crate::STATIC_BUFFER_SIZE;
use vstd::prelude::*;

verus! {

/// The per-sample outputs of an [OscFxP].
pub struct OscOutputFxP<'a> {
    pub sin: &'a [SampleFxP],
    pub tri: &'a [SampleFxP],
    pub sq: &'a [SampleFxP],
    pub saw: &'a [SampleFxP],
    /// Whether the phase wrapped during the sample: the pulse that
    /// hard-syncs a second oscillator.
    pub sync: &'a [bool],
}

/// Per-sample parameters for an [OscFxP].
pub struct OscParamsFxP<'a> {
    /// The pitch, as a fixed-point MIDI note.
    pub note: &'a [NoteFxP],
    /// The square wave's duty cycle, in `[0, 1)`.
    pub shape: &'a [ScalarFxP],
    /// Restart the cycle at this sample (hard sync).
    pub sync: &'a [bool],
}

impl<'a> OscParamsFxP<'a> {
    pub open spec fn spec_len(&self) -> int {
        let a = if self.note@.len() < self.shape@.len() {
            self.note@.len() as int
        } else {
            self.shape@.len() as int
        };
        if a < self.sync@.len() {
            a
        } else {
            self.sync@.len() as int
        }
    }

    /// The length of the parameters: that of the shortest slice.
    pub fn len(&self) -> (r: usize)
        ensures
            r == self.spec_len(),
    {
        let a = if self.note.len() < self.shape.len() {
            self.note.len()
        } else {
            self.shape.len()
        };
        if a < self.sync.len() {
            a
        } else {
            self.sync.len()
        }
    }
}

/// The phase increment per sample (0.32 of a cycle) of a 14.2 frequency at
/// 44.1kHz.
pub open spec fn phase_inc(f: int) -> int {
    f * 0x1_0000_0000 / 176400
}

/// The saw wave at phase `p`: from -1 up to just below 1 (4.12).
pub open spec fn saw_at(p: int) -> int {
    p / 0x8_0000 - 0x1000
}

/// The triangle wave at phase `p` (4.12): up from -1 over the first half,
/// down over the second.
pub open spec fn tri_at(p: int) -> int {
    let t = p / 0x4_0000;
    if t < 0x2000 {
        t - 0x1000
    } else {
        0x2fff - t
    }
}

/// The square wave at phase `p` for duty cycle `w` (0.16), in 4.12.
pub open spec fn sq_at(p: int, w: int) -> int {
    if p / 0x1_0000 < w {
        0x0fff
    } else {
        -0x1000
    }
}

/// The sine approximation `4x(1 - |x|)` at `x` = the saw's value (4.12).
pub open spec fn sin_at(p: int) -> int {
    let x = saw_at(p);
    let ax = if x < 0 {
        -x
    } else {
        x
    };
    4 * x * (0x1000 - ax) / 0x1000
}

/// One sample of the oscillator from phase `phase`: the waveforms, read at
/// the (possibly restarted) phase, then the next phase and whether it
/// wrapped.
pub open spec fn osc_step(phase: int, note: int, w: int, sync: bool) -> (int, int, int, int, int, bool) {
    let p = if sync {
        0
    } else {
        phase
    };
    let next = p + phase_inc(note_freq(note));
    (
        sin_at(p),
        tri_at(p),
        sq_at(p, w),
        saw_at(p),
        next % 0x1_0000_0000,
        next >= 0x1_0000_0000,
    )
}

pub struct OscTrace {
    pub sin: Seq<SampleFxP>,
    pub tri: Seq<SampleFxP>,
    pub sq: Seq<SampleFxP>,
    pub saw: Seq<SampleFxP>,
    pub sync: Seq<bool>,
    pub phase: int,
}

/// The oscillator run from `phase` over the first `n` samples.
pub open spec fn osc_run(
    phase: int,
    note: Seq<NoteFxP>,
    shape: Seq<ScalarFxP>,
    sync: Seq<bool>,
    n: nat,
) -> OscTrace
    decreases n,
{
    if n == 0 {
        OscTrace { sin: seq![], tri: seq![], sq: seq![], saw: seq![], sync: seq![], phase }
    } else {
        let prev = osc_run(phase, note, shape, sync, (n - 1) as nat);
        let i = n - 1;
        let o = osc_step(prev.phase, note[i].bits as int, shape[i].bits as int, sync[i]);
        OscTrace {
            sin: prev.sin.push(SampleFxP { bits: o.0 as i16 }),
            tri: prev.tri.push(SampleFxP { bits: o.1 as i16 }),
            sq: prev.sq.push(SampleFxP { bits: o.2 as i16 }),
            saw: prev.saw.push(SampleFxP { bits: o.3 as i16 }),
            sync: prev.sync.push(o.5),
            phase: o.4,
        }
    }
}

pub proof fn lemma_osc_run_len(
    phase: int,
    note: Seq<NoteFxP>,
    shape: Seq<ScalarFxP>,
    sync: Seq<bool>,
    n: nat,
)
    ensures
        ({
            let t = osc_run(phase, note, shape, sync, n);
            &&& t.sin.len() == n
            &&& t.tri.len() == n
            &&& t.sq.len() == n
            &&& t.saw.len() == n
            &&& t.sync.len() == n
        }),
    decreases n,
{
    if n > 0 {
        lemma_osc_run_len(phase, note, shape, sync, (n - 1) as nat);
    }
}

/// A fixed-point oscillator.
pub struct OscFxP {
    sin: [SampleFxP; STATIC_BUFFER_SIZE],
    tri: [SampleFxP; STATIC_BUFFER_SIZE],
    sq: [SampleFxP; STATIC_BUFFER_SIZE],
    saw: [SampleFxP; STATIC_BUFFER_SIZE],
    sync: [bool; STATIC_BUFFER_SIZE],
    phase: u32,
}

impl OscFxP {
    /// The phase, as a 0.32 fraction of a cycle.
    pub closed spec fn phase(&self) -> int {
        self.phase as int
    }

    /// An oscillator at the start of its cycle.
    pub fn new() -> (r: Self)
        ensures
            r.phase() == 0,
    {
        OscFxP {
            sin: [SampleFxP { bits: 0 }; STATIC_BUFFER_SIZE],
            tri: [SampleFxP { bits: 0 }; STATIC_BUFFER_SIZE],
            sq: [SampleFxP { bits: 0 }; STATIC_BUFFER_SIZE],
            saw: [SampleFxP { bits: 0 }; STATIC_BUFFER_SIZE],
            sync: [false; STATIC_BUFFER_SIZE],
            phase: 0,
        }
    }

    fn step(phase: u32, note: NoteFxP, w: u16, sync: bool) -> (r: (i16, i16, i16, i16, u32, bool))
        ensures
            (r.0 as int, r.1 as int, r.2 as int, r.3 as int, r.4 as int, r.5) == osc_step(
                phase as int,
                note.bits as int,
                w as int,
                sync,
            ),
    {
        let p: u64 = if sync {
            0
        } else {
            phase as u64
        };
        let f: u64 = midi_note_to_frequency(note) as u64;
        assert(f * 0x1_0000_0000 < 0x1_0000 * 0x1_0000_0000) by (nonlinear_arith)
            requires
                f < 0x1_0000,
        ;
        let inc: u64 = f * 0x1_0000_0000 / 176400;
        let next: u64 = p + inc;
        let saw: i64 = (p / 0x8_0000) as i64 - 0x1000;
        let t: i64 = (p / 0x4_0000) as i64;
        let tri: i64 = if t < 0x2000 {
            t - 0x1000
        } else {
            0x2fff - t
        };
        let sq: i64 = if p / 0x1_0000 < w as u64 {
            0x0fff
        } else {
            -0x1000
        };
        let ax: i64 = if saw < 0 {
            -saw
        } else {
            saw
        };
        assert(-0x1000 * 0x1000 <= saw * (0x1000 - ax) <= 0x1000 * 0x1000) by (nonlinear_arith)
            requires
                -0x1000 <= saw < 0x1000,
                saw < 0 ==> ax == -saw,
                saw >= 0 ==> ax == saw,
        ;
        let prod: i64 = saw * (0x1000 - ax);
        let sin: i64 = floor_shr(4 * prod, 12);
        proof {
            vstd::arithmetic::power2::lemma2_to64();
            assert(4 * saw * (0x1000 - ax) == 4 * prod) by (nonlinear_arith)
                requires
                    prod == saw * (0x1000 - ax),
            ;
            assert(-0x4000 <= (4 * prod) / 0x1000 <= 0x4000) by (nonlinear_arith)
                requires
                    -0x1000 * 0x1000 <= prod <= 0x1000 * 0x1000,
            ;
        }
        (sin as i16, tri as i16, sq as i16, saw as i16, (next % 0x1_0000_0000) as u32, next >= 0x1_0000_0000)
    }

    /// Runs the oscillator over the parameter streams: `min(params.len(),
    /// 256)` samples of each waveform and of the sync pulse.
    pub fn process(&mut self, params: OscParamsFxP) -> (r: OscOutputFxP)
        ensures
            ({
                let n = if params.spec_len() < STATIC_BUFFER_SIZE {
                    params.spec_len()
                } else {
                    STATIC_BUFFER_SIZE as int
                };
                let t = osc_run(old(self).phase(), params.note@, params.shape@, params.sync@, n as nat);
                &&& r.sin@.len() == n
                &&& r.sin@ == t.sin
                &&& r.tri@ == t.tri
                &&& r.sq@ == t.sq
                &&& r.saw@ == t.saw
                &&& r.sync@ == t.sync
                &&& final(self).phase() == t.phase
            }),
    {
        let plen = params.len();
        let n: usize = if plen < STATIC_BUFFER_SIZE {
            plen
        } else {
            STATIC_BUFFER_SIZE
        };
        let ghost phase0 = self.phase as int;
        let mut i: usize = 0;
        while i < n
            invariant
                n <= STATIC_BUFFER_SIZE,
                n <= params.spec_len(),
                i <= n,
                ({
                    let t = osc_run(phase0, params.note@, params.shape@, params.sync@, i as nat);
                    &&& self.sin@.subrange(0, i as int) == t.sin
                    &&& self.tri@.subrange(0, i as int) == t.tri
                    &&& self.sq@.subrange(0, i as int) == t.sq
                    &&& self.saw@.subrange(0, i as int) == t.saw
                    &&& self.sync@.subrange(0, i as int) == t.sync
                    &&& self.phase as int == t.phase
                }),
            decreases n - i,
        {
            let ghost (p_sin, p_tri, p_sq, p_saw, p_sync) = (
                self.sin@,
                self.tri@,
                self.sq@,
                self.saw@,
                self.sync@,
            );
            let o = Self::step(self.phase, params.note[i], params.shape[i].bits, params.sync[i]);
            self.sin[i] = SampleFxP { bits: o.0 };
            self.tri[i] = SampleFxP { bits: o.1 };
            self.sq[i] = SampleFxP { bits: o.2 };
            self.saw[i] = SampleFxP { bits: o.3 };
            self.sync[i] = o.5;
            self.phase = o.4;
            assert(self.sin@.subrange(0, i + 1) =~= p_sin.subrange(0, i as int).push(SampleFxP { bits: o.0 }));
            assert(self.tri@.subrange(0, i + 1) =~= p_tri.subrange(0, i as int).push(SampleFxP { bits: o.1 }));
            assert(self.sq@.subrange(0, i + 1) =~= p_sq.subrange(0, i as int).push(SampleFxP { bits: o.2 }));
            assert(self.saw@.subrange(0, i + 1) =~= p_saw.subrange(0, i as int).push(SampleFxP { bits: o.3 }));
            assert(self.sync@.subrange(0, i + 1) =~= p_sync.subrange(0, i as int).push(o.5));
            i += 1;
        }
        OscOutputFxP {
            sin: &self.sin[0..n],
            tri: &self.tri[0..n],
            sq: &self.sq[0..n],
            saw: &self.saw[0..n],
            sync: &self.sync[0..n],
        }
    }
}

} // verus!
