//! The modulation matrix: every modulation source owns four weighted slots,
//! each routed to one destination.
use crate::fixedmath::{floor_shr, lemma_mul_bound, sat_i16, saturate_i16, shr};
use vstd::prelude::*;

verus! {

/// The number of modulation sources.
pub const NUM_SRCS: usize = 6;

/// The number of modulation destinations.
pub const NUM_DESTS: usize = 15;

/// The number of slots each source owns.
pub const SLOTS_PER_SRC: usize = 4;

/// The number of slots in the matrix.
pub const NUM_SLOTS: usize = 24;

/// A modulation source.
#[derive(Clone, Copy, Debug, PartialEq, Eq, Structural)]
pub enum ModSrc {
    Velocity,
    ModWheel,
    Env1,
    Env2,
    Lfo1,
    Lfo2,
}

/// A modulation destination.  `Null` routes nowhere.
#[derive(Clone, Copy, Debug, PartialEq, Eq, Structural)]
pub enum ModDest {
    Null,
    Osc1Note,
    Osc2Note,
    Osc1Shape,
    Osc2Shape,
    Osc1Level,
    Osc2Level,
    RingLevel,
    FiltCutoff,
    FiltResonance,
    Lfo1Rate,
    Lfo2Rate,
    SlotBWeight,
    SlotCWeight,
    SlotDWeight,
}

impl ModSrc {
    pub open spec fn spec_index(self) -> int {
        match self {
            ModSrc::Velocity => 0,
            ModSrc::ModWheel => 1,
            ModSrc::Env1 => 2,
            ModSrc::Env2 => 3,
            ModSrc::Lfo1 => 4,
            ModSrc::Lfo2 => 5,
        }
    }

    /// The position of this source among [ModSrc::elements].
    pub fn index(self) -> (r: usize)
        ensures
            r == self.spec_index(),
            r < NUM_SRCS,
    {
        match self {
            ModSrc::Velocity => 0,
            ModSrc::ModWheel => 1,
            ModSrc::Env1 => 2,
            ModSrc::Env2 => 3,
            ModSrc::Lfo1 => 4,
            ModSrc::Lfo2 => 5,
        }
    }

    /// Every source, in order.
    pub fn elements() -> (r: Vec<ModSrc>)
        ensures
            r@.len() == NUM_SRCS,
            forall|i: int| 0 <= i < r@.len() ==> (#[trigger] r@[i]).spec_index() == i,
    {
        vec![
            ModSrc::Velocity,
            ModSrc::ModWheel,
            ModSrc::Env1,
            ModSrc::Env2,
            ModSrc::Lfo1,
            ModSrc::Lfo2,
        ]
    }
}

impl ModDest {
    pub open spec fn spec_index(self) -> int {
        match self {
            ModDest::Null => 0,
            ModDest::Osc1Note => 1,
            ModDest::Osc2Note => 2,
            ModDest::Osc1Shape => 3,
            ModDest::Osc2Shape => 4,
            ModDest::Osc1Level => 5,
            ModDest::Osc2Level => 6,
            ModDest::RingLevel => 7,
            ModDest::FiltCutoff => 8,
            ModDest::FiltResonance => 9,
            ModDest::Lfo1Rate => 10,
            ModDest::Lfo2Rate => 11,
            ModDest::SlotBWeight => 12,
            ModDest::SlotCWeight => 13,
            ModDest::SlotDWeight => 14,
        }
    }

    /// Whether a secondary slot (any slot but a source's first) may route
    /// to this destination.  The weights of a source's own slots may be
    /// modulated from its first slot only.
    pub open spec fn spec_is_secondary(self) -> bool {
        !(self is SlotBWeight || self is SlotCWeight || self is SlotDWeight)
    }

    /// The position of this destination among [ModDest::elements].
    pub fn index(self) -> (r: usize)
        ensures
            r == self.spec_index(),
            r < NUM_DESTS,
    {
        match self {
            ModDest::Null => 0,
            ModDest::Osc1Note => 1,
            ModDest::Osc2Note => 2,
            ModDest::Osc1Shape => 3,
            ModDest::Osc2Shape => 4,
            ModDest::Osc1Level => 5,
            ModDest::Osc2Level => 6,
            ModDest::RingLevel => 7,
            ModDest::FiltCutoff => 8,
            ModDest::FiltResonance => 9,
            ModDest::Lfo1Rate => 10,
            ModDest::Lfo2Rate => 11,
            ModDest::SlotBWeight => 12,
            ModDest::SlotCWeight => 13,
            ModDest::SlotDWeight => 14,
        }
    }

    pub fn is_secondary(self) -> (r: bool)
        ensures
            r == self.spec_is_secondary(),
    {
        match self {
            ModDest::SlotBWeight | ModDest::SlotCWeight | ModDest::SlotDWeight => false,
            _ => true,
        }
    }

    /// The destinations a slot may select: all of them, or only the
    /// secondary ones when `secondary` holds.
    pub fn elements_secondary_if(secondary: bool) -> (r: Vec<ModDest>)
        ensures
            forall|d: ModDest| r@.contains(d) <==> (!secondary || d.spec_is_secondary()),
    {
        let mut v: Vec<ModDest> = vec![
            ModDest::Null,
            ModDest::Osc1Note,
            ModDest::Osc2Note,
            ModDest::Osc1Shape,
            ModDest::Osc2Shape,
            ModDest::Osc1Level,
            ModDest::Osc2Level,
            ModDest::RingLevel,
            ModDest::FiltCutoff,
            ModDest::FiltResonance,
            ModDest::Lfo1Rate,
            ModDest::Lfo2Rate,
        ];
        if !secondary {
            v.push(ModDest::SlotBWeight);
            v.push(ModDest::SlotCWeight);
            v.push(ModDest::SlotDWeight);
        }
        proof {
            assert forall|d: ModDest|
                #![trigger v@.contains(d)]
                (!secondary || d.spec_is_secondary()) implies v@.contains(d) by {
                let i: int = d.spec_index();
                assert(v@[i] == d);
            }
            assert forall|d: ModDest|
                #![trigger v@.contains(d)]
                secondary && v@.contains(d) implies d.spec_is_secondary() by {
                let i = choose|i: int| 0 <= i < v@.len() && v@[i] == d;
                assert(v@[i].spec_is_secondary());
            }
        }
        v
    }
}

/// One slot: a destination and a signed 1.15 weight.
#[derive(Clone, Copy, Debug, PartialEq, Eq, Structural)]
pub struct ModSlot {
    pub dest: ModDest,
    pub weight: i16,
}

/// Why an edit of the matrix was refused.
#[derive(Clone, Copy, Debug, PartialEq, Eq, Structural)]
pub enum ModMatrixError {
    /// The slot index is not below four.
    SlotOutOfRange,
    /// A secondary slot was routed to a destination reserved for the first.
    PrimaryOnly,
}

/// The sum of `value(source) * weight` over the first `n` slots routed to
/// destination index `d`; slot `i` belongs to source `i / 4`.
pub open spec fn dest_sum(slots: Seq<ModSlot>, values: Seq<i16>, d: int, n: nat) -> int
    decreases n,
{
    if n == 0 {
        0
    } else {
        let i = n - 1;
        dest_sum(slots, values, d, i as nat) + if slots[i].dest.spec_index() == d {
            values[i / 4] * slots[i].weight
        } else {
            0
        }
    }
}

/// The contribution resolved for destination index `d`: the weighted sum
/// at full width, narrowed once to 1.15 and saturated.
pub open spec fn contribution(slots: Seq<ModSlot>, values: Seq<i16>, d: int) -> int {
    sat_i16(shr(dest_sum(slots, values, d, NUM_SLOTS as nat), 15))
}

/// The modulation matrix.
pub struct ModMatrix {
    slots: [ModSlot; NUM_SLOTS],
}

impl View for ModMatrix {
    type V = Seq<ModSlot>;

    /// The slots, four per source in source order.
    closed spec fn view(&self) -> Seq<ModSlot> {
        self.slots@
    }
}

pub proof fn lemma_dest_sum_bound(slots: Seq<ModSlot>, values: Seq<i16>, d: int, n: nat)
    requires
        n <= slots.len(),
        n <= 4 * values.len(),
    ensures
        -(n * 0x4000_0000) <= dest_sum(slots, values, d, n) <= n * 0x4000_0000,
    decreases n,
{
    if n > 0 {
        let i = n - 1;
        lemma_dest_sum_bound(slots, values, d, i as nat);
        lemma_mul_bound(values[i / 4] as int, slots[i].weight as int, 0x8000, 0x8000);
    }
}

impl ModMatrix {
    /// A matrix with every slot routed nowhere, at weight zero.
    pub fn new() -> (r: Self)
        ensures
            r@.len() == NUM_SLOTS,
            forall|i: int|
                0 <= i < NUM_SLOTS ==> #[trigger] r@[i] == (ModSlot { dest: ModDest::Null, weight: 0 }),
    {
        ModMatrix { slots: [ModSlot { dest: ModDest::Null, weight: 0 }; NUM_SLOTS] }
    }

    pub proof fn lemma_len(&self)
        ensures
            self@.len() == NUM_SLOTS,
    {
    }

    /// Slot `idx` of source `src`.
    pub fn slot(&self, src: ModSrc, idx: usize) -> (r: ModSlot)
        requires
            idx < SLOTS_PER_SRC,
        ensures
            r == self@[4 * src.spec_index() + idx],
    {
        self.slots[4 * src.index() + idx]
    }

    /// Routes slot `idx` of `src` to `dest` with `weight`.  Refused, with the
    /// matrix left as it was, when `idx` is not below four or when a slot
    /// but the first is routed to a destination that is not secondary.
    pub fn set_slot(&mut self, src: ModSrc, idx: usize, dest: ModDest, weight: i16) -> (r: Result<
        (),
        ModMatrixError,
    >)
        ensures
            idx >= SLOTS_PER_SRC ==> r == Err::<(), ModMatrixError>(ModMatrixError::SlotOutOfRange),
            idx < SLOTS_PER_SRC && idx >= 1 && !dest.spec_is_secondary() ==> r == Err::<
                (),
                ModMatrixError,
            >(ModMatrixError::PrimaryOnly),
            r.is_err() ==> final(self)@ == old(self)@,
            r.is_ok() <==> (idx < SLOTS_PER_SRC && (idx == 0 || dest.spec_is_secondary())),
            r.is_ok() ==> final(self)@ == old(self)@.update(
                4 * src.spec_index() + idx,
                ModSlot { dest, weight },
            ),
    {
        if idx >= SLOTS_PER_SRC {
            return Err(ModMatrixError::SlotOutOfRange);
        }
        if idx >= 1 && !dest.is_secondary() {
            return Err(ModMatrixError::PrimaryOnly);
        }
        self.slots[4 * src.index() + idx] = ModSlot { dest, weight };
        Ok(())
    }

    /// The contribution of every destination, indexed by
    /// [ModDest::index], for the given source values (1.15, indexed by
    /// [ModSrc::index]).
    pub fn resolve(&self, values: &[i16; NUM_SRCS]) -> (r: [i16; NUM_DESTS])
        ensures
            forall|d: int|
                0 <= d < NUM_DESTS ==> #[trigger] r[d] as int == contribution(self@, values@, d),
    {
        let mut out: [i16; NUM_DESTS] = [0; NUM_DESTS];
        let mut d: usize = 0;
        while d < NUM_DESTS
            invariant
                d <= NUM_DESTS,
                forall|e: int|
                    0 <= e < d ==> #[trigger] out[e] as int == contribution(self@, values@, e),
            decreases NUM_DESTS - d,
        {
            let mut acc: i64 = 0;
            let mut i: usize = 0;
            while i < NUM_SLOTS
                invariant
                    d < NUM_DESTS,
                    i <= NUM_SLOTS,
                    acc == dest_sum(self@, values@, d as int, i as nat),
                decreases NUM_SLOTS - i,
            {
                proof {
                    lemma_dest_sum_bound(self@, values@, d as int, i as nat);
                    lemma_mul_bound(
                        values[(i / 4) as int] as int,
                        self.slots[i as int].weight as int,
                        0x8000,
                        0x8000,
                    );
                }
                let slot = self.slots[i];
                if slot.dest.index() == d {
                    acc = acc + (values[i / 4] as i64) * (slot.weight as i64);
                }
                i += 1;
            }
            proof {
                lemma_dest_sum_bound(self@, values@, d as int, NUM_SLOTS as nat);
            }
            out[d] = saturate_i16(floor_shr(acc, 15));
            d += 1;
        }
        out
    }
}

/// Four slots of one source, each at weight one quarter and all routed to
/// the same destination that no other slot selects, resolve that
/// destination to the source's own value.
pub proof fn lemma_equal_shares_resolve_to_source(
    m: ModMatrix,
    values: Seq<i16>,
    src: ModSrc,
    dest: ModDest,
)
    requires
        values.len() == NUM_SRCS,
        forall|j: int|
            0 <= j < 4 ==> #[trigger] m@[4 * src.spec_index() + j] == (ModSlot {
                dest,
                weight: 0x2000,
            }),
        forall|i: int|
            0 <= i < NUM_SLOTS && i / 4 != src.spec_index() ==> (#[trigger] m@[i]).dest != dest,
    ensures
        contribution(m@, values, dest.spec_index()) == values[src.spec_index()],
{
    m.lemma_len();
    let b = 4 * src.spec_index();
    let v = values[src.spec_index()] as int;
    lemma_group_sum(m@, values, dest, b, v, NUM_SLOTS as nat);
    assert(4 * (v * 0x2000) == v * 0x8000);
    vstd::arithmetic::power2::lemma2_to64();
    assert((v * 0x8000) / 0x8000 == v) by (nonlinear_arith);
}

proof fn lemma_group_sum(
    slots: Seq<ModSlot>,
    values: Seq<i16>,
    dest: ModDest,
    b: int,
    v: int,
    n: nat,
)
    requires
        n <= slots.len() == NUM_SLOTS,
        values.len() == NUM_SRCS,
        0 <= b && b % 4 == 0 && b + 4 <= NUM_SLOTS,
        v == values[b / 4],
        forall|j: int| 0 <= j < 4 ==> #[trigger] slots[b + j] == (ModSlot { dest, weight: 0x2000 }),
        forall|i: int| 0 <= i < NUM_SLOTS && i / 4 != b / 4 ==> (#[trigger] slots[i]).dest != dest,
    ensures
        dest_sum(slots, values, dest.spec_index(), n) == (if n <= b {
            0
        } else if n <= b + 4 {
            (n - b) * (v * 0x2000)
        } else {
            4 * (v * 0x2000)
        }),
    decreases n,
{
    if n > 0 {
        let i = n - 1;
        lemma_group_sum(slots, values, dest, b, v, i as nat);
        if b <= i < b + 4 {
            assert(slots[b + (i - b)] == (ModSlot { dest, weight: 0x2000 }));
            assert(i / 4 == b / 4);
            assert(i == b ==> (i - b) * (v * 0x2000) == 0) by (nonlinear_arith);
            assert((n - b) * (v * 0x2000) == (i - b) * (v * 0x2000) + v * 0x2000)
                by (nonlinear_arith)
                requires
                    i == n - 1,
            ;
            assert(dest_sum(slots, values, dest.spec_index(), n) == dest_sum(
                slots,
                values,
                dest.spec_index(),
                i as nat,
            ) + v * 0x2000);
        } else {
            assert(i == b + 4 ==> (i - b) * (v * 0x2000) == 4 * (v * 0x2000)) by (nonlinear_arith);
            assert(i / 4 != b / 4);
            assert(slots[i].dest != dest);
            if slots[i].dest.spec_index() == dest.spec_index() {
                assert(slots[i].dest == dest);
            }
            assert(dest_sum(slots, values, dest.spec_index(), n) == dest_sum(
                slots,
                values,
                dest.spec_index(),
                i as nat,
            ));
        }
    }
}

} // verus!
