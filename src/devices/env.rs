//! The envelope generator: an attack-decay-sustain-release contour driven
//! by a gate.  The attack is linear; decay and release approach their
//! targets exponentially, by a fixed fraction of the remaining distance per
//! sample.  The end of the release is a terminal idle state, which is how a
//! voice is known to be free.
use crate::fixedmath::{EnvParamFxP, ScalarFxP};
use crate::{min_int, STATIC_BUFFER_SIZE};
use vstd::prelude::*;

verus! {

/// The full-scale envelope level (0.32 format).
pub const LEVEL_MAX: u64 = 0xffff_ffff;

/// Below this level a release ends (the 0.16 output is zero there).
pub const LEVEL_FLOOR: u64 = 0x1_0000;

/// The stage an envelope is in.
#[derive(Clone, Copy, Debug, PartialEq, Eq, Structural)]
pub enum EnvStage {
    Idle,
    Attack,
    Decay,
    Release,
}

/// Per-sample parameters for an [EnvFxP].  Attack, decay and release are
/// rates: larger values move faster.
pub struct EnvParamsFxP<'a> {
    pub attack: &'a [EnvParamFxP],
    pub decay: &'a [EnvParamFxP],
    /// The level held while the key stays down, in `[0, 1)`.
    pub sustain: &'a [ScalarFxP],
    pub release: &'a [EnvParamFxP],
}

impl<'a> EnvParamsFxP<'a> {
    pub open spec fn spec_len(&self) -> int {
        min_int(
            min_int(self.attack@.len() as int, self.decay@.len() as int),
            min_int(self.sustain@.len() as int, self.release@.len() as int),
        )
    }

    /// The length of the parameters: that of the shortest slice.
    pub fn len(&self) -> (r: usize)
        ensures
            r == self.spec_len(),
    {
        let a = if self.attack.len() < self.decay.len() {
            self.attack.len()
        } else {
            self.decay.len()
        };
        let b = if self.sustain.len() < self.release.len() {
            self.sustain.len()
        } else {
            self.release.len()
        };
        if a < b {
            a
        } else {
            b
        }
    }
}

/// The level `level` moves to in one sample when approaching `target` by
/// the fraction `(rate + 1) / 65536` of the remaining distance.
pub open spec fn approach(level: int, target: int, rate: int) -> int {
    if level > target {
        level - (level - target) * (rate + 1) / 0x1_0000
    } else {
        level + (target - level) * (rate + 1) / 0x1_0000
    }
}

/// One sample of the envelope: the next stage and level (0.32) from the
/// current ones, whether the key is down, and the attack, decay, sustain and release
/// parameters (raw bits).
pub open spec fn env_step(stage: EnvStage, level: int, gate: bool, a: int, d: int, s: int, r: int) -> (
    EnvStage,
    int,
) {
    if gate {
        match stage {
            EnvStage::Idle | EnvStage::Release | EnvStage::Attack => {
                let next = level + (a + 1) * 0x1000;
                if next >= LEVEL_MAX {
                    (EnvStage::Decay, LEVEL_MAX as int)
                } else {
                    (EnvStage::Attack, next)
                }
            },
            EnvStage::Decay => (EnvStage::Decay, approach(level, s * 0x1_0000, d)),
        }
    } else {
        match stage {
            EnvStage::Idle => (EnvStage::Idle, level),
            _ => {
                let next = approach(level, 0, r);
                if next < LEVEL_FLOOR {
                    (EnvStage::Idle, 0)
                } else {
                    (EnvStage::Release, next)
                }
            },
        }
    }
}

/// With the key up, an envelope that is not idle either falls silent and
/// becomes idle, or its level strictly falls: every release ends.
pub proof fn lemma_release_progresses(stage: EnvStage, level: int, a: int, d: int, s: int, r: int)
    requires
        !(stage is Idle),
        LEVEL_FLOOR <= level <= LEVEL_MAX,
        0 <= r <= 0xffff,
    ensures
        ({
            let o = env_step(stage, level, false, a, d, s, r);
            o.0 is Idle && o.1 == 0 || o.0 is Release && LEVEL_FLOOR <= o.1 < level
        }),
{
    assert(level * (r + 1) / 0x1_0000 >= 1) by (nonlinear_arith)
        requires
            level >= 0x1_0000,
            r >= 0,
    ;
    assert(level * (r + 1) / 0x1_0000 <= level) by (nonlinear_arith)
        requires
            level >= 0,
            0 <= r <= 0xffff,
    ;
}

/// The outputs, final stage and final level of an envelope run over the
/// first `n` samples.
pub struct EnvTrace {
    pub out: Seq<ScalarFxP>,
    pub stage: EnvStage,
    pub level: int,
}

pub open spec fn env_run(
    stage: EnvStage,
    level: int,
    gate: Seq<bool>,
    p_attack: Seq<EnvParamFxP>,
    p_decay: Seq<EnvParamFxP>,
    p_sustain: Seq<ScalarFxP>,
    p_release: Seq<EnvParamFxP>,
    n: nat,
) -> EnvTrace
    decreases n,
{
    if n == 0 {
        EnvTrace { out: seq![], stage, level }
    } else {
        let prev = env_run(stage, level, gate, p_attack, p_decay, p_sustain, p_release, (n - 1) as nat);
        let i = n - 1;
        let o = env_step(
            prev.stage,
            prev.level,
            gate[i],
            p_attack[i].bits as int,
            p_decay[i].bits as int,
            p_sustain[i].bits as int,
            p_release[i].bits as int,
        );
        EnvTrace { out: prev.out.push(ScalarFxP { bits: (o.1 / 0x1_0000) as u16 }), stage: o.0, level: o.1 }
    }
}

/// A fixed-point envelope generator.
pub struct EnvFxP {
    outbuf: [ScalarFxP; STATIC_BUFFER_SIZE],
    stage: EnvStage,
    level: u32,
}

impl EnvFxP {
    /// The stage and the 0.32 level.
    pub closed spec fn state(&self) -> (EnvStage, int) {
        (self.stage, self.level as int)
    }

    /// An idle envelope at level zero.
    pub fn new() -> (r: Self)
        ensures
            r.state() == (EnvStage::Idle, 0int),
    {
        EnvFxP { outbuf: [ScalarFxP { bits: 0 }; STATIC_BUFFER_SIZE], stage: EnvStage::Idle, level: 0 }
    }

    /// Whether the envelope has finished its release (or never started).
    pub fn is_idle(&self) -> (r: bool)
        ensures
            r == (self.state().0 is Idle),
    {
        self.stage == EnvStage::Idle
    }

    /// The level, as a 0.16 value.
    pub fn level(&self) -> (r: u16)
        ensures
            r as int == self.state().1 / 0x1_0000,
    {
        (self.level / 0x1_0000) as u16
    }

    fn approach(level: u32, target: u32, rate: u16) -> (r: u32)
        ensures
            r == approach(level as int, target as int, rate as int),
    {
        let l = level as u64;
        let t = target as u64;
        let k = rate as u64 + 1;
        if l > t {
            assert((l - t) * k / 0x1_0000 <= l - t) by (nonlinear_arith)
                requires
                    0 < l - t,
                    1 <= k <= 0x1_0000,
            ;
            (l - (l - t) * k / 0x1_0000) as u32
        } else {
            assert((t - l) * k / 0x1_0000 <= t - l) by (nonlinear_arith)
                requires
                    0 <= t - l,
                    1 <= k <= 0x1_0000,
            ;
            (l + (t - l) * k / 0x1_0000) as u32
        }
    }

    fn step(stage: EnvStage, level: u32, gate: bool, a: u16, d: u16, s: u16, r: u16) -> (o: (
        EnvStage,
        u32,
    ))
        ensures
            (o.0, o.1 as int) == env_step(stage, level as int, gate, a as int, d as int, s as int, r as int),
    {
        if gate {
            match stage {
                EnvStage::Decay => (EnvStage::Decay, Self::approach(level, (s as u32) * 0x1_0000, d)),
                _ => {
                    let next: u64 = level as u64 + (a as u64 + 1) * 0x1000;
                    if next >= LEVEL_MAX {
                        (EnvStage::Decay, LEVEL_MAX as u32)
                    } else {
                        (EnvStage::Attack, next as u32)
                    }
                },
            }
        } else {
            match stage {
                EnvStage::Idle => (EnvStage::Idle, level),
                _ => {
                    let next = Self::approach(level, 0, r);
                    if (next as u64) < LEVEL_FLOOR {
                        (EnvStage::Idle, 0)
                    } else {
                        (EnvStage::Release, next)
                    }
                },
            }
        }
    }

    /// Runs the envelope over the key and parameter streams, and returns
    /// its 0.16 level per sample: `min(gate.len(), params.len(), 256)`
    /// samples.
    pub fn process(&mut self, gate: &[bool], params: EnvParamsFxP) -> (r: &[ScalarFxP])
        ensures
            ({
                let n = min_int(
                    min_int(gate@.len() as int, params.spec_len()),
                    STATIC_BUFFER_SIZE as int,
                );
                let t = env_run(
                    old(self).state().0,
                    old(self).state().1,
                    gate@,
                    params.attack@,
                    params.decay@,
                    params.sustain@,
                    params.release@,
                    n as nat,
                );
                &&& r@.len() == n
                &&& r@ == t.out
                &&& final(self).state() == (t.stage, t.level)
            }),
    {
        let plen = params.len();
        let n: usize = if gate.len() < plen {
            gate.len()
        } else {
            plen
        };
        let n: usize = if n < STATIC_BUFFER_SIZE {
            n
        } else {
            STATIC_BUFFER_SIZE
        };
        let ghost stage0 = self.stage;
        let ghost level0 = self.level as int;
        let mut i: usize = 0;
        while i < n
            invariant
                n <= STATIC_BUFFER_SIZE,
                n as int == min_int(min_int(gate@.len() as int, params.spec_len()), STATIC_BUFFER_SIZE as int),
                i <= n,
                ({
                    let t = env_run(
                        stage0,
                        level0,
                        gate@,
                        params.attack@,
                        params.decay@,
                        params.sustain@,
                        params.release@,
                        i as nat,
                    );
                    &&& self.outbuf@.subrange(0, i as int) == t.out
                    &&& self.stage == t.stage
                    &&& self.level as int == t.level
                }),
            decreases n - i,
        {
            let ghost prev = self.outbuf@;
            let o = Self::step(
                self.stage,
                self.level,
                gate[i],
                params.attack[i].bits,
                params.decay[i].bits,
                params.sustain[i].bits,
                params.release[i].bits,
            );
            self.stage = o.0;
            self.level = o.1;
            self.outbuf[i] = ScalarFxP { bits: (o.1 / 0x1_0000) as u16 };
            assert(self.outbuf@.subrange(0, i + 1) =~= prev.subrange(0, i as int).push(
                ScalarFxP { bits: (o.1 / 0x1_0000) as u16 },
            ));
            i += 1;
        }
        &self.outbuf[0..n]
    }
}

} // verus!
