//! Voice allocation: which voice sounds each incoming note, in monophonic
//! or polyphonic operation, and which voice is stolen when none is free.
use crate::fixedmath::{sat_i16, NoteFxP, SampleFxP};
use crate::modulation::{contribution, ModMatrix, ModSlot, NUM_DESTS, NUM_SRCS};
use crate::voice::{cseq, voice_run, VoiceFxP, VoiceParamsFxP, VoiceState};
use crate::STATIC_BUFFER_SIZE;
use vstd::prelude::*;

verus! {

/// Where a voice stands in its life.
#[derive(Clone, Copy, Debug, PartialEq, Eq, Structural)]
pub enum VoiceStage {
    /// Silent, free for a new note.
    Idle,
    /// Sounding a note whose key is still down.
    Held,
    /// Sounding the release of a note whose key was let go.
    Releasing,
}

/// The allocator's record of one voice.
#[derive(Clone, Copy, Debug, PartialEq, Eq, Structural)]
pub struct VoiceSlot {
    pub stage: VoiceStage,
    /// The MIDI note the voice plays (meaningless when idle).
    pub note: u8,
    /// When the note started, counted in note-on events.
    pub started: u64,
    /// The voice's envelope level while releasing; zero is silence.
    pub level: u16,
    /// The MIDI velocity the note was struck with.
    pub velocity: u8,
}

/// The allocation strategy.
#[derive(Clone, Copy, Debug, PartialEq, Eq, Structural)]
pub enum VoiceMode {
    /// One voice, retriggered by every note: last-note priority.
    Mono,
    /// A fixed pool of voices.
    Poly,
}

/// The lowest index below `n` of an idle voice, or `vs.len()` if none.
pub open spec fn first_idle(vs: Seq<VoiceSlot>, n: nat) -> int
    decreases n,
{
    if n == 0 {
        vs.len() as int
    } else {
        let p = first_idle(vs, (n - 1) as nat);
        if p < vs.len() {
            p
        } else if vs[n - 1].stage is Idle {
            n - 1
        } else {
            vs.len() as int
        }
    }
}

/// The index below `n` of the releasing voice closest to silence (the
/// lowest such index among equals), or `vs.len()` if none is releasing.
pub open spec fn quietest_release(vs: Seq<VoiceSlot>, n: nat) -> int
    decreases n,
{
    if n == 0 {
        vs.len() as int
    } else {
        let p = quietest_release(vs, (n - 1) as nat);
        let i = n - 1;
        if vs[i].stage is Releasing && (p >= vs.len() || vs[i].level < vs[p].level) {
            i
        } else {
            p
        }
    }
}

/// The index below `n` of the held voice that started first (the lowest
/// such index among equals), or `vs.len()` if none is held.
pub open spec fn oldest_held(vs: Seq<VoiceSlot>, n: nat) -> int
    decreases n,
{
    if n == 0 {
        vs.len() as int
    } else {
        let p = oldest_held(vs, (n - 1) as nat);
        let i = n - 1;
        if vs[i].stage is Held && (p >= vs.len() || vs[i].started < vs[p].started) {
            i
        } else {
            p
        }
    }
}

/// The voice a polyphonic note-on takes: the first idle voice; failing
/// that, the releasing voice closest to silence; failing that, the oldest
/// held voice.
pub open spec fn poly_choice(vs: Seq<VoiceSlot>) -> int {
    let n = vs.len();
    if first_idle(vs, n) < n {
        first_idle(vs, n)
    } else if quietest_release(vs, n) < n {
        quietest_release(vs, n)
    } else {
        oldest_held(vs, n)
    }
}

/// A voice after the key of `note` is let go.
pub open spec fn released(v: VoiceSlot, note: u8) -> VoiceSlot {
    if v.stage is Held && v.note == note {
        VoiceSlot { stage: VoiceStage::Releasing, level: 0xffff, ..v }
    } else {
        v
    }
}

/// A voice after its envelope reports `level`.
pub open spec fn leveled(v: VoiceSlot, level: u16) -> VoiceSlot {
    if v.stage is Releasing {
        if level == 0 {
            VoiceSlot { stage: VoiceStage::Idle, level: 0, ..v }
        } else {
            VoiceSlot { level, ..v }
        }
    } else {
        v
    }
}

proof fn lemma_choice_bounds(vs: Seq<VoiceSlot>, n: nat)
    requires
        n <= vs.len(),
    ensures
        0 <= first_idle(vs, n) <= vs.len(),
        first_idle(vs, n) < vs.len() ==> first_idle(vs, n) < n && vs[first_idle(
            vs,
            n,
        )].stage is Idle,
        first_idle(vs, n) == vs.len() ==> forall|j: int|
            0 <= j < n ==> !(#[trigger] vs[j].stage is Idle),
        0 <= quietest_release(vs, n) <= vs.len(),
        quietest_release(vs, n) < vs.len() ==> quietest_release(vs, n) < n && vs[quietest_release(
            vs,
            n,
        )].stage is Releasing,
        quietest_release(vs, n) == vs.len() ==> forall|j: int|
            0 <= j < n ==> !(#[trigger] vs[j].stage is Releasing),
        0 <= oldest_held(vs, n) <= vs.len(),
        oldest_held(vs, n) < vs.len() ==> oldest_held(vs, n) < n && vs[oldest_held(
            vs,
            n,
        )].stage is Held,
        oldest_held(vs, n) == vs.len() ==> forall|j: int|
            0 <= j < n ==> !(#[trigger] vs[j].stage is Held),
    decreases n,
{
    if n > 0 {
        lemma_choice_bounds(vs, (n - 1) as nat);
    }
}

/// The voice a polyphonic note-on takes exists in any non-empty pool.
pub proof fn lemma_poly_choice_in_pool(vs: Seq<VoiceSlot>)
    requires
        vs.len() > 0,
    ensures
        0 <= poly_choice(vs) < vs.len(),
{
    lemma_choice_bounds(vs, vs.len());
    let j: int = 0;
    assert(vs[j].stage is Idle || vs[j].stage is Releasing || vs[j].stage is Held);
}

proof fn lemma_oldest_held_is_oldest(vs: Seq<VoiceSlot>, n: nat)
    requires
        n <= vs.len(),
        forall|j: int| 0 <= j < vs.len() ==> #[trigger] vs[j].stage is Held,
    ensures
        n > 0 ==> oldest_held(vs, n) < n,
        forall|j: int|
            0 <= j < n ==> vs[oldest_held(vs, n)].started <= #[trigger] vs[j].started,
    decreases n,
{
    if n > 0 {
        lemma_oldest_held_is_oldest(vs, (n - 1) as nat);
    }
}

/// A polyphonic pool with no idle and no releasing voice, that is with
/// every voice held, gives a new note the voice that started first.
pub proof fn lemma_full_pool_steals_oldest(vs: Seq<VoiceSlot>)
    requires
        vs.len() > 0,
        forall|j: int| 0 <= j < vs.len() ==> #[trigger] vs[j].stage is Held,
    ensures
        0 <= poly_choice(vs) < vs.len(),
        forall|j: int| 0 <= j < vs.len() ==> vs[poly_choice(vs)].started <= #[trigger] vs[j].started,
{
    lemma_choice_bounds(vs, vs.len());
    lemma_oldest_held_is_oldest(vs, vs.len());
    if first_idle(vs, vs.len()) < vs.len() {
        assert(vs[first_idle(vs, vs.len())].stage is Held);
    }
    if quietest_release(vs, vs.len()) < vs.len() {
        assert(vs[quietest_release(vs, vs.len())].stage is Held);
    }
}

/// The note a voice plays, as a fixed-point note (clamped to the MIDI
/// range).
pub open spec fn note_of(v: VoiceSlot) -> NoteFxP {
    NoteFxP { bits: ((if v.note > 127 { 127 } else { v.note as int }) * 512) as u16 }
}

/// The modulation values a voice renders with: the matrix's slots `mv`
/// resolved for the source values `sources`, with the velocity source set
/// to the voice's velocity (clamped to the MIDI range, as a 1.15 value).
pub open spec fn voice_mods(mv: Seq<ModSlot>, sources: Seq<i16>, v: VoiceSlot) -> Seq<i16> {
    let vel = if v.velocity > 127 {
        127
    } else {
        v.velocity as int
    };
    let vals = sources.update(0, (vel * 256) as i16);
    Seq::new(NUM_DESTS as nat, |d: int| contribution(mv, vals, d) as i16)
}

/// The active voices' blocks of `n` samples mixed, adding with saturation
/// in voice order, over the first `i` voices.
pub open spec fn mix_voices(
    slots: Seq<VoiceSlot>,
    states: Seq<VoiceState>,
    n: nat,
    p: VoiceParamsFxP,
    mv: Seq<ModSlot>,
    sources: Seq<i16>,
    i: nat,
) -> Seq<SampleFxP>
    decreases i,
{
    if i == 0 {
        cseq(n, SampleFxP { bits: 0 })
    } else {
        let prev = mix_voices(slots, states, n, p, mv, sources, (i - 1) as nat);
        let j = i - 1;
        if slots[j].stage is Idle {
            prev
        } else {
            let m = voice_mods(mv, sources, slots[j]);
            let out = voice_run(states[j], n, note_of(slots[j]), slots[j].stage is Held, p, m).0;
            Seq::new(
                n,
                |k: int| SampleFxP { bits: sat_i16(prev[k].bits + out[k].bits) as i16 },
            )
        }
    }
}

/// A voice's record after a block, given its devices' state after it: a
/// voice whose amplifier envelope finished becomes idle; a releasing voice
/// records its level (at least one while it sounds).
pub open spec fn after_block(v: VoiceSlot, s: VoiceState) -> VoiceSlot {
    if v.stage is Idle {
        v
    } else if s.vca.0 is Idle {
        VoiceSlot { stage: VoiceStage::Idle, level: 0, ..v }
    } else if v.stage is Releasing {
        VoiceSlot { level: (if s.vca.1 / 0x1_0000 == 0 { 1 } else { s.vca.1 / 0x1_0000 }) as u16, ..v }
    } else {
        v
    }
}

/// Assigns notes to voices, and renders them.
pub struct VoiceAllocator {
    mode: VoiceMode,
    voices: Vec<VoiceSlot>,
    synths: Vec<VoiceFxP>,
    clock: u64,
    outbuf: [SampleFxP; STATIC_BUFFER_SIZE],
}

impl VoiceAllocator {
    pub closed spec fn spec_mode(&self) -> VoiceMode {
        self.mode
    }

    /// The voices, by index.
    pub closed spec fn spec_voices(&self) -> Seq<VoiceSlot> {
        self.voices@
    }

    /// The state of each voice's devices.
    pub closed spec fn spec_states(&self) -> Seq<VoiceState> {
        Seq::new(self.synths@.len(), |i: int| self.synths@[i].state())
    }

    pub closed spec fn synths_ok(&self) -> bool {
        &&& self.synths@.len() == self.voices@.len()
        &&& forall|i: int| 0 <= i < self.synths@.len() ==> (#[trigger] self.synths@[i]).wf()
    }

    /// The start stamp the next note will get.
    pub closed spec fn spec_clock(&self) -> u64 {
        self.clock
    }

    /// A non-empty pool, of exactly one voice in monophonic mode.
    pub open spec fn wf(&self) -> bool {
        &&& self.spec_voices().len() > 0
        &&& self.spec_mode() is Mono ==> self.spec_voices().len() == 1
        &&& self.synths_ok()
    }

    /// A monophonic allocator: one idle voice.
    pub fn new_mono() -> (r: Self)
        ensures
            r.wf(),
            r.spec_mode() is Mono,
            r.spec_clock() == 0,
            r.spec_voices() == seq![VoiceSlot { stage: VoiceStage::Idle, note: 0, started: 0, level: 0, velocity: 0 }],
    {
        let mut synths: Vec<VoiceFxP> = Vec::new();
        synths.push(VoiceFxP::new());
        VoiceAllocator {
            mode: VoiceMode::Mono,
            voices: vec![VoiceSlot { stage: VoiceStage::Idle, note: 0, started: 0, level: 0, velocity: 0 }],
            synths,
            clock: 0,
            outbuf: [SampleFxP { bits: 0 }; STATIC_BUFFER_SIZE],
        }
    }

    /// A polyphonic allocator of `n` idle voices; `None` for an empty pool.
    pub fn new_poly(n: usize) -> (r: Option<Self>)
        ensures
            r.is_some() <==> n > 0,
            r.is_some() ==> ({
                let a = r.unwrap();
                &&& a.wf()
                &&& a.spec_mode() is Poly
                &&& a.spec_clock() == 0
                &&& a.spec_voices().len() == n
                &&& forall|i: int|
                    0 <= i < n ==> #[trigger] a.spec_voices()[i] == (VoiceSlot {
                        stage: VoiceStage::Idle,
                        note: 0,
                        started: 0,
                        level: 0,
                        velocity: 0,
                    })
            }),
    {
        if n == 0 {
            return None;
        }
        let mut voices: Vec<VoiceSlot> = Vec::new();
        let mut synths: Vec<VoiceFxP> = Vec::new();
        let mut i: usize = 0;
        while i < n
            invariant
                i <= n,
                voices@.len() == i,
                synths@.len() == i,
                forall|j: int| 0 <= j < i ==> (#[trigger] synths@[j]).wf(),
                forall|j: int|
                    0 <= j < i ==> #[trigger] voices@[j] == (VoiceSlot {
                        stage: VoiceStage::Idle,
                        note: 0,
                        started: 0,
                        level: 0,
                        velocity: 0,
                    }),
            decreases n - i,
        {
            voices.push(VoiceSlot { stage: VoiceStage::Idle, note: 0, started: 0, level: 0, velocity: 0 });
            synths.push(VoiceFxP::new());
            i += 1;
        }
        Some(
            VoiceAllocator {
                mode: VoiceMode::Poly,
                voices,
                synths,
                clock: 0,
                outbuf: [SampleFxP { bits: 0 }; STATIC_BUFFER_SIZE],
            },
        )
    }

    pub fn mode(&self) -> (r: VoiceMode)
        ensures
            r == self.spec_mode(),
    {
        self.mode
    }

    pub fn num_voices(&self) -> (r: usize)
        ensures
            r == self.spec_voices().len(),
    {
        self.voices.len()
    }

    pub fn voice(&self, i: usize) -> (r: VoiceSlot)
        requires
            i < self.spec_voices().len(),
        ensures
            r == self.spec_voices()[i as int],
    {
        self.voices[i]
    }

    /// The voice a polyphonic note-on takes (see [poly_choice]).
    fn choose_poly(&self) -> (r: usize)
        requires
            self.wf(),
        ensures
            r == poly_choice(self.spec_voices()),
    {
        let n = self.voices.len();
        let mut idle: usize = n;
        let mut rel: usize = n;
        let mut held: usize = n;
        let mut i: usize = 0;
        while i < n
            invariant
                n == self.voices@.len(),
                i <= n,
                idle == first_idle(self.voices@, i as nat),
                rel == quietest_release(self.voices@, i as nat),
                held == oldest_held(self.voices@, i as nat),
            decreases n - i,
        {
            proof {
                lemma_choice_bounds(self.voices@, i as nat);
            }
            let v = self.voices[i];
            if idle == n && v.stage == VoiceStage::Idle {
                idle = i;
            }
            if v.stage == VoiceStage::Releasing && (rel == n || v.level < self.voices[rel].level) {
                rel = i;
            }
            if v.stage == VoiceStage::Held && (held == n || v.started < self.voices[held].started) {
                held = i;
            }
            i += 1;
        }
        if idle < n {
            idle
        } else if rel < n {
            rel
        } else {
            held
        }
    }

    /// Starts `note`, struck with `velocity`, on a voice, and returns that
    /// voice's index.  In
    /// monophonic mode the single voice is retriggered; in polyphonic mode
    /// the voice is chosen by [poly_choice], stealing one when none is idle.
    pub fn note_on(&mut self, note: u8, velocity: u8) -> (r: usize)
        requires
            old(self).wf(),
        ensures
            final(self).wf(),
            final(self).spec_mode() == old(self).spec_mode(),
            old(self).spec_mode() is Mono ==> r == 0,
            old(self).spec_mode() is Poly ==> r == poly_choice(old(self).spec_voices()),
            final(self).spec_states() == old(self).spec_states(),
            final(self).spec_voices() == old(self).spec_voices().update(
                r as int,
                VoiceSlot {
                    stage: VoiceStage::Held,
                    note,
                    started: old(self).spec_clock(),
                    level: 0xffff,
                    velocity,
                },
            ),
            final(self).spec_clock() == (if old(self).spec_clock() < u64::MAX {
                old(self).spec_clock() + 1
            } else {
                old(self).spec_clock() as int
            }),
    {
        let r: usize = match self.mode {
            VoiceMode::Mono => 0,
            VoiceMode::Poly => self.choose_poly(),
        };
        proof {
            lemma_poly_choice_in_pool(self.voices@);
        }
        self.voices.set(
            r,
            VoiceSlot { stage: VoiceStage::Held, note, started: self.clock, level: 0xffff, velocity },
        );
        self.clock = self.clock.saturating_add(1);
        r
    }

    /// Lets go of `note`: every voice holding it moves to its release, at
    /// full level.
    pub fn note_off(&mut self, note: u8)
        requires
            old(self).wf(),
        ensures
            final(self).wf(),
            final(self).spec_mode() == old(self).spec_mode(),
            final(self).spec_clock() == old(self).spec_clock(),
            final(self).spec_voices().len() == old(self).spec_voices().len(),
            final(self).spec_states() == old(self).spec_states(),
            forall|i: int|
                0 <= i < old(self).spec_voices().len() ==> #[trigger] final(self).spec_voices()[i]
                    == released(old(self).spec_voices()[i], note),
    {
        let n = self.voices.len();
        let mut i: usize = 0;
        while i < n
            invariant
                n == self.voices@.len(),
                n == old(self).voices@.len(),
                self.mode == old(self).mode,
                self.clock == old(self).clock,
                self.synths == old(self).synths,
                i <= n,
                forall|j: int|
                    0 <= j < i ==> #[trigger] self.voices@[j] == released(old(self).voices@[j], note),
                forall|j: int| i <= j < n ==> #[trigger] self.voices@[j] == old(self).voices@[j],
            decreases n - i,
        {
            let v = self.voices[i];
            if v.stage == VoiceStage::Held && v.note == note {
                self.voices.set(i, VoiceSlot { stage: VoiceStage::Releasing, level: 0xffff, ..v });
            }
            i += 1;
        }
    }

    /// Records the envelope level of voice `i`.  A releasing voice that
    /// reaches silence becomes idle and free for reassignment; voices that
    /// are not releasing are left alone.
    pub fn report_level(&mut self, i: usize, level: u16)
        requires
            old(self).wf(),
            i < old(self).spec_voices().len(),
        ensures
            final(self).wf(),
            final(self).spec_mode() == old(self).spec_mode(),
            final(self).spec_clock() == old(self).spec_clock(),
            final(self).spec_states() == old(self).spec_states(),
            final(self).spec_voices() == old(self).spec_voices().update(
                i as int,
                leveled(old(self).spec_voices()[i as int], level),
            ),
    {
        let v = self.voices[i];
        if v.stage == VoiceStage::Releasing {
            if level == 0 {
                self.voices.set(i, VoiceSlot { stage: VoiceStage::Idle, level: 0, ..v });
            } else {
                self.voices.set(i, VoiceSlot { level, ..v });
            }
        } else {
            assert(self.voices@ =~= self.voices@.update(i as int, v));
        }
    }
}

/// Adds `block` into the first `n` samples of `out`, saturating.
fn accumulate(out: &mut [SampleFxP; STATIC_BUFFER_SIZE], block: &[SampleFxP], n: usize)
    requires
        n <= STATIC_BUFFER_SIZE,
        block@.len() == n,
    ensures
        final(out)@.subrange(0, n as int) == Seq::new(
            n as nat,
            |k: int| SampleFxP { bits: sat_i16(old(out)@[k].bits + block@[k].bits) as i16 },
        ),
{
    let ghost prev = out@;
    let mut k: usize = 0;
    while k < n
        invariant
            n <= STATIC_BUFFER_SIZE,
            block@.len() == n,
            k <= n,
            forall|q: int|
                0 <= q < k ==> #[trigger] out@[q] == (SampleFxP {
                    bits: sat_i16(prev[q].bits + block@[q].bits) as i16,
                }),
            forall|q: int| k <= q < STATIC_BUFFER_SIZE ==> #[trigger] out@[q] == prev[q],
        decreases n - k,
    {
        let s: i32 = out[k].bits as i32 + block[k].bits as i32;
        out[k] = SampleFxP {
            bits: if s < -0x8000 {
                -0x8000
            } else if s > 0x7fff {
                0x7fff
            } else {
                s as i16
            },
        };
        k += 1;
    }
    assert(out@.subrange(0, n as int) =~= Seq::new(
        n as nat,
        |k: int| SampleFxP { bits: sat_i16(prev[k].bits + block@[k].bits) as i16 },
    ));
}

impl VoiceAllocator {
    /// Renders a block of `min(frames, 256)` samples: every voice that is
    /// not idle renders its note (with the key held while the voice is
    /// held) under the modulation `matrix` resolved for the source values
    /// `sources` and the voice's own velocity, and the blocks are mixed
    /// with saturation.  A voice whose
    /// amplifier envelope finished becomes idle; a releasing voice records
    /// its level, for stealing.
    #[verifier::rlimit(50)]
    pub fn render_block(
        &mut self,
        frames: usize,
        p: &VoiceParamsFxP,
        matrix: &ModMatrix,
        sources: &[i16; NUM_SRCS],
    ) -> (r: &[SampleFxP])
        requires
            old(self).wf(),
        ensures
            final(self).wf(),
            final(self).spec_mode() == old(self).spec_mode(),
            final(self).spec_clock() == old(self).spec_clock(),
            ({
                let n = if frames < STATIC_BUFFER_SIZE {
                    frames as nat
                } else {
                    STATIC_BUFFER_SIZE as nat
                };
                let slots = old(self).spec_voices();
                let states = old(self).spec_states();
                &&& r@ == mix_voices(slots, states, n, *p, matrix@, sources@, slots.len())
                &&& final(self).spec_voices().len() == slots.len()
                &&& final(self).spec_states().len() == slots.len()
                &&& forall|i: int|
                    0 <= i < slots.len() ==> #[trigger] final(self).spec_states()[i] == (if slots[i].stage is Idle {
                        states[i]
                    } else {
                        voice_run(
                            states[i],
                            n,
                            note_of(slots[i]),
                            slots[i].stage is Held,
                            *p,
                            voice_mods(matrix@, sources@, slots[i]),
                        ).1
                    })
                &&& forall|i: int|
                    0 <= i < slots.len() ==> #[trigger] final(self).spec_voices()[i] == after_block(
                        slots[i],
                        final(self).spec_states()[i],
                    )
            }),
    {
        let n: usize = if frames < STATIC_BUFFER_SIZE {
            frames
        } else {
            STATIC_BUFFER_SIZE
        };
        let ghost slots = self.voices@;
        let ghost states = self.spec_states();
        let mut out: [SampleFxP; STATIC_BUFFER_SIZE] = [SampleFxP { bits: 0 }; STATIC_BUFFER_SIZE];
        let count = self.voices.len();
        let mut i: usize = 0;
        assert(out@.subrange(0, n as int) =~= mix_voices(slots, states, n as nat, *p, matrix@, sources@, 0));
        while i < count
            invariant
                n <= STATIC_BUFFER_SIZE,
                count == slots.len(),
                i <= count,
                self.mode == old(self).mode,
                self.clock == old(self).clock,
                self.voices@.len() == count,
                self.synths@.len() == count,
                forall|j: int| 0 <= j < count ==> (#[trigger] self.synths@[j]).wf(),
                slots == old(self).voices@,
                states == old(self).spec_states(),
                old(self).wf(),
                out@.subrange(0, n as int) == mix_voices(slots, states, n as nat, *p, matrix@, sources@, i as nat),
                forall|j: int|
                    0 <= j < i ==> #[trigger] self.synths@[j].state() == (if slots[j].stage is Idle {
                        states[j]
                    } else {
                        voice_run(
                            states[j],
                            n as nat,
                            note_of(slots[j]),
                            slots[j].stage is Held,
                            *p,
                            voice_mods(matrix@, sources@, slots[j]),
                        ).1
                    }),
                forall|j: int|
                    0 <= j < i ==> #[trigger] self.voices@[j] == after_block(
                        slots[j],
                        self.synths@[j].state(),
                    ),
                forall|j: int| i <= j < count ==> #[trigger] self.voices@[j] == slots[j],
                forall|j: int| i <= j < count ==> #[trigger] self.synths@[j] == old(self).synths@[j],
            decreases count - i,
        {
            let slot = self.voices[i];
            if slot.stage != VoiceStage::Idle {
                let midi: u16 = if slot.note > 127 {
                    127
                } else {
                    slot.note as u16
                };
                let note = NoteFxP { bits: midi * 512 };
                let held = slot.stage == VoiceStage::Held;
                assert(states[i as int] == old(self).synths@[i as int].state());
                let mut vals: [i16; NUM_SRCS] = *sources;
                let vel: i16 = if slot.velocity > 127 {
                    127
                } else {
                    slot.velocity as i16
                };
                vals[0] = vel * 256;
                let m = matrix.resolve(&vals);
                assert(m@ =~= voice_mods(matrix@, sources@, slot));
                let block = self.synths[i].render(n, note, held, p, &m);
                accumulate(&mut out, block, n);
                assert(out@.subrange(0, n as int) =~= mix_voices(slots, states, n as nat, *p, matrix@, sources@, (i + 1) as nat));
                let v = &self.synths[i];
                let updated = if v.is_idle() {
                    VoiceSlot { stage: VoiceStage::Idle, level: 0, ..slot }
                } else if slot.stage == VoiceStage::Releasing {
                    let l = v.level();
                    VoiceSlot { level: if l == 0 { 1 } else { l }, ..slot }
                } else {
                    slot
                };
                self.voices.set(i, updated);
            }
            i += 1;
        }
        self.outbuf = out;
        let r = &self.outbuf[0..n];
        proof {
            assert(self.spec_states() =~= Seq::new(count as nat, |j: int| self.synths@[j].state()));
        }
        r
    }
}

} // verus!
