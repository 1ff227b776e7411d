use vstd::prelude::*;

verus! {

/// The eight lamp roles, named by the label printed beside each lamp.
#[derive(Debug, PartialEq, Eq, Structural, Clone, Copy)]
pub enum WhichLed {
    Led3,
    Led4,
    Led5,
    Led6,
    Led7,
    Led8,
    Led9,
    Led10,
}

/// The ring order: 3, 5, 7, 9, 10, 8, 6, 4, then 3 again.
pub open spec fn ring_next(w: WhichLed) -> WhichLed {
    match w {
        WhichLed::Led3 => WhichLed::Led5,
        WhichLed::Led5 => WhichLed::Led7,
        WhichLed::Led7 => WhichLed::Led9,
        WhichLed::Led9 => WhichLed::Led10,
        WhichLed::Led10 => WhichLed::Led8,
        WhichLed::Led8 => WhichLed::Led6,
        WhichLed::Led6 => WhichLed::Led4,
        WhichLed::Led4 => WhichLed::Led3,
    }
}

/// The role reached from `w` after `n` steps along the ring.
pub open spec fn ring_after(w: WhichLed, n: nat) -> WhichLed
    decreases n,
{
    if n == 0 {
        w
    } else {
        ring_next(ring_after(w, (n - 1) as nat))
    }
}

/// The printed label of a role.
pub open spec fn label_of(w: WhichLed) -> u8 {
    match w {
        WhichLed::Led3 => 3,
        WhichLed::Led4 => 4,
        WhichLed::Led5 => 5,
        WhichLed::Led6 => 6,
        WhichLed::Led7 => 7,
        WhichLed::Led8 => 8,
        WhichLed::Led9 => 9,
        WhichLed::Led10 => 10,
    }
}

impl WhichLed {
    /// The role that follows this one in the ring; `self` is left as it was.
    pub fn next(&mut self) -> (r: WhichLed)
        ensures
            r == ring_next(*old(self)),
            *final(self) == *old(self),
    {
        match self {
            WhichLed::Led3 => WhichLed::Led5,
            WhichLed::Led4 => WhichLed::Led3,
            WhichLed::Led5 => WhichLed::Led7,
            WhichLed::Led6 => WhichLed::Led4,
            WhichLed::Led7 => WhichLed::Led9,
            WhichLed::Led8 => WhichLed::Led6,
            WhichLed::Led9 => WhichLed::Led10,
            WhichLed::Led10 => WhichLed::Led8,
        }
    }

    /// The printed label of this role.
    pub fn label(&self) -> (r: u8)
        ensures
            r == label_of(*self),
    {
        match self {
            WhichLed::Led3 => 3,
            WhichLed::Led4 => 4,
            WhichLed::Led5 => 5,
            WhichLed::Led6 => 6,
            WhichLed::Led7 => 7,
            WhichLed::Led8 => 8,
            WhichLed::Led9 => 9,
            WhichLed::Led10 => 10,
        }
    }
}

/// From role 3 the ring visits 3, 5, 7, 9, 10, 8, 6, 4 and is back at 3 after eight steps.
pub proof fn lemma_ring_from_three()
    ensures
        ring_after(WhichLed::Led3, 0) == WhichLed::Led3,
        ring_after(WhichLed::Led3, 1) == WhichLed::Led5,
        ring_after(WhichLed::Led3, 2) == WhichLed::Led7,
        ring_after(WhichLed::Led3, 3) == WhichLed::Led9,
        ring_after(WhichLed::Led3, 4) == WhichLed::Led10,
        ring_after(WhichLed::Led3, 5) == WhichLed::Led8,
        ring_after(WhichLed::Led3, 6) == WhichLed::Led6,
        ring_after(WhichLed::Led3, 7) == WhichLed::Led4,
        ring_after(WhichLed::Led3, 8) == WhichLed::Led3,
{
    reveal_with_fuel(ring_after, 9);
}

/// The eight roles visited from `w`, in ring order.
pub open spec fn orbit(w: WhichLed) -> Seq<WhichLed> {
    Seq::new(8, |k: int| ring_after(w, k as nat))
}

proof fn lemma_orbit_values(w: WhichLed)
    ensures
        ring_after(w, 8) == w,
        forall|a: int, b: int| 0 <= a < b < 8 ==> orbit(w)[a] != orbit(w)[b],
{
    let o = orbit(w);
    assert(o[0] == w);
    assert(o[1] == ring_next(o[0]));
    assert(o[2] == ring_next(o[1]));
    assert(o[3] == ring_next(o[2]));
    assert(o[4] == ring_next(o[3]));
    assert(o[5] == ring_next(o[4]));
    assert(o[6] == ring_next(o[5]));
    assert(o[7] == ring_next(o[6]));
    assert(ring_after(w, 8) == ring_next(o[7]));
    assert(ring_next(o[7]) == w && o[0] != o[1] && o[0] != o[2] && o[0] != o[3] && o[0] != o[4]
        && o[0] != o[5] && o[0] != o[6] && o[0] != o[7] && o[1] != o[2] && o[1] != o[3] && o[1] != o[4]
        && o[1] != o[5] && o[1] != o[6] && o[1] != o[7] && o[2] != o[3] && o[2] != o[4] && o[2] != o[5]
        && o[2] != o[6] && o[2] != o[7] && o[3] != o[4] && o[3] != o[5] && o[3] != o[6] && o[3] != o[7]
        && o[4] != o[5] && o[4] != o[6] && o[4] != o[7] && o[5] != o[6] && o[5] != o[7] && o[6] != o[7]) by {
        match w {
            WhichLed::Led3 => {},
            WhichLed::Led4 => {},
            WhichLed::Led5 => {},
            WhichLed::Led6 => {},
            WhichLed::Led7 => {},
            WhichLed::Led8 => {},
            WhichLed::Led9 => {},
            WhichLed::Led10 => {},
        }
    }
}

/// The ring is a single cycle of period eight: every role comes back to
/// itself after exactly eight steps and after no fewer, and the eight roles
/// visited from any start are pairwise distinct.
pub proof fn lemma_ring_single_cycle(w: WhichLed)
    ensures
        ring_after(w, 8) == w,
        forall|i: nat, j: nat| i < j < 8 ==> ring_after(w, i) != ring_after(w, j),
        forall|k: nat| 0 < k < 8 ==> ring_after(w, k) != w,
{
    lemma_orbit_values(w);
    assert forall|i: nat, j: nat| i < j < 8 implies ring_after(w, i) != ring_after(w, j) by {
        assert(orbit(w)[i as int] != orbit(w)[j as int]);
    }
    assert forall|k: nat| 0 < k < 8 implies ring_after(w, k) != w by {
        assert(orbit(w)[0] != orbit(w)[k as int]);
        assert(ring_after(w, 0) == w);
    }
}

} // verus!
