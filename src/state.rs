//! The mapping state of a block and its legal transitions.
//!
//! A block is `Unmapped` at first. A map request claims it (`Mapping`, or
//! `Mapped` directly where the host pointer is already resident), an unmap
//! request claims it back (`Unmapping`), and each claim is completed or
//! rolled back. Every transition is a single compare-and-swap on the block's
//! state cell, so at most one claim can hold at a time.
use vstd::prelude::*;

verus! {

/// A state of the mapping state machine.
#[derive(PartialEq, Eq, Structural, Clone, Copy, Debug)]
pub enum MappingState {
    Unmapped,
    Mapping,
    Mapped,
    Unmapping,
}

/// A transition of the mapping state machine.
#[derive(PartialEq, Eq, Structural, Clone, Copy, Debug)]
pub enum Transition {
    /// `Unmapped` to `Mapping`: a device map call is about to be made.
    StartMapping,
    /// `Mapping` to `Mapped`: the device map call succeeded.
    EndMapping,
    /// `Mapping` to `Unmapped`: the device map call failed.
    MappingFailed,
    /// `Unmapped` to `Mapped`: the host pointer is resident, no device call.
    AcquireMapping,
    /// `Mapped` to `Unmapping`: an unmap is about to be made.
    StartUnmapping,
    /// `Unmapping` to `Unmapped`: the unmap is complete.
    EndUnmapping,
}

pub const STATE_UNMAPPED: u8 = 0;
pub const STATE_MAPPING: u8 = 1;
pub const STATE_MAPPED: u8 = 2;
pub const STATE_UNMAPPING: u8 = 3;

/// The state a transition starts from.
pub open spec fn source(t: Transition) -> MappingState {
    match t {
        Transition::StartMapping => MappingState::Unmapped,
        Transition::EndMapping => MappingState::Mapping,
        Transition::MappingFailed => MappingState::Mapping,
        Transition::AcquireMapping => MappingState::Unmapped,
        Transition::StartUnmapping => MappingState::Mapped,
        Transition::EndUnmapping => MappingState::Unmapping,
    }
}

/// The state a transition leads to.
pub open spec fn target(t: Transition) -> MappingState {
    match t {
        Transition::StartMapping => MappingState::Mapping,
        Transition::EndMapping => MappingState::Mapped,
        Transition::MappingFailed => MappingState::Unmapped,
        Transition::AcquireMapping => MappingState::Mapped,
        Transition::StartUnmapping => MappingState::Unmapping,
        Transition::EndUnmapping => MappingState::Unmapped,
    }
}

/// The state after taking `t` in `s`, or `None` where `t` does not start
/// from `s` (the compare-and-swap fails and the state is left alone).
pub open spec fn step(s: MappingState, t: Transition) -> Option<MappingState> {
    if s == source(t) {
        Some(target(t))
    } else {
        None
    }
}

/// The state after a sequence of transitions, `None` as soon as one of them
/// does not apply.
pub open spec fn run(s: MappingState, ts: Seq<Transition>) -> Option<MappingState>
    decreases ts.len(),
{
    if ts.len() == 0 {
        Some(s)
    } else {
        match step(s, ts[0]) {
            Some(next) => run(next, ts.drop_first()),
            None => None,
        }
    }
}

/// A transition that claims the block for mapping.
pub open spec fn is_map_claim(t: Transition) -> bool {
    t == Transition::StartMapping || t == Transition::AcquireMapping
}

/// The byte that stands for a state in the block's state cell.
pub open spec fn encode(s: MappingState) -> u8 {
    match s {
        MappingState::Unmapped => STATE_UNMAPPED,
        MappingState::Mapping => STATE_MAPPING,
        MappingState::Mapped => STATE_MAPPED,
        MappingState::Unmapping => STATE_UNMAPPING,
    }
}

impl MappingState {
    /// The byte that stands for this state in the block's state cell.
    pub fn to_u8(self) -> (r: u8)
        ensures
            r == encode(self),
    {
        match self {
            MappingState::Unmapped => STATE_UNMAPPED,
            MappingState::Mapping => STATE_MAPPING,
            MappingState::Mapped => STATE_MAPPED,
            MappingState::Unmapping => STATE_UNMAPPING,
        }
    }
}

impl Transition {
    /// The state this transition starts from.
    pub fn from_state(self) -> (r: MappingState)
        ensures
            r == source(self),
    {
        match self {
            Transition::StartMapping => MappingState::Unmapped,
            Transition::EndMapping => MappingState::Mapping,
            Transition::MappingFailed => MappingState::Mapping,
            Transition::AcquireMapping => MappingState::Unmapped,
            Transition::StartUnmapping => MappingState::Mapped,
            Transition::EndUnmapping => MappingState::Unmapping,
        }
    }

    /// The state this transition leads to.
    pub fn to_state(self) -> (r: MappingState)
        ensures
            r == target(self),
    {
        match self {
            Transition::StartMapping => MappingState::Mapping,
            Transition::EndMapping => MappingState::Mapped,
            Transition::MappingFailed => MappingState::Unmapped,
            Transition::AcquireMapping => MappingState::Mapped,
            Transition::StartUnmapping => MappingState::Unmapping,
            Transition::EndUnmapping => MappingState::Unmapped,
        }
    }
}

/// The transitions of one map followed by one unmap, by way of the given
/// claim: through `Mapping` for a device map, straight to `Mapped` for a
/// resident pointer.
pub open spec fn map_then_unmap(claim: Transition) -> Seq<Transition> {
    if claim == Transition::StartMapping {
        seq![
            Transition::StartMapping,
            Transition::EndMapping,
            Transition::StartUnmapping,
            Transition::EndUnmapping,
        ]
    } else {
        seq![Transition::AcquireMapping, Transition::StartUnmapping, Transition::EndUnmapping]
    }
}

/// A map followed by an unmap leaves an unmapped block unmapped, and the
/// same map can then be claimed again; so does a map whose device call
/// failed.
pub proof fn lemma_map_then_unmap_restores(claim: Transition)
    requires
        is_map_claim(claim),
    ensures
        run(MappingState::Unmapped, map_then_unmap(claim)) == Some(MappingState::Unmapped),
        run(MappingState::Unmapped, seq![Transition::StartMapping, Transition::MappingFailed])
            == Some(MappingState::Unmapped),
        step(MappingState::Unmapped, claim) is Some,
{
    reveal_with_fuel(run, 5);
    let ts = map_then_unmap(claim);
    if claim == Transition::StartMapping {
        assert(ts.drop_first() =~= seq![Transition::EndMapping, Transition::StartUnmapping, Transition::EndUnmapping]);
        assert(ts.drop_first().drop_first() =~= seq![Transition::StartUnmapping, Transition::EndUnmapping]);
        assert(ts.drop_first().drop_first().drop_first() =~= seq![Transition::EndUnmapping]);
        assert(ts.drop_first().drop_first().drop_first().drop_first() =~= Seq::<Transition>::empty());
    } else {
        assert(ts.drop_first() =~= seq![Transition::StartUnmapping, Transition::EndUnmapping]);
        assert(ts.drop_first().drop_first() =~= seq![Transition::EndUnmapping]);
        assert(ts.drop_first().drop_first().drop_first() =~= Seq::<Transition>::empty());
    }
    let f = seq![Transition::StartMapping, Transition::MappingFailed];
    assert(f.drop_first() =~= seq![Transition::MappingFailed]);
    assert(f.drop_first().drop_first() =~= Seq::<Transition>::empty());
}

/// Of two map attempts on the same state, at most one claims the block:
/// a claim succeeds only from `Unmapped`, leaves a state that is not
/// `Unmapped`, and the completion of a device map does not lead back
/// there either.
pub proof fn lemma_map_claims_exclusive(s: MappingState, first: Transition, second: Transition)
    requires
        is_map_claim(first),
        is_map_claim(second),
    ensures
        step(s, first) is Some ==> s == MappingState::Unmapped,
        step(s, first) matches Some(t) ==> step(t, second) is None,
        step(s, first) matches Some(t) ==> (step(t, Transition::EndMapping) matches Some(u)
            ==> step(u, second) is None),
{
}

/// Unmapping succeeds only on a mapped block: on a block that was never
/// mapped, or whose unmap already completed, it fails and leaves the state
/// as it was.
pub proof fn lemma_unmap_requires_mapped(s: MappingState)
    ensures
        step(s, Transition::StartUnmapping) is Some <==> s == MappingState::Mapped,
        step(MappingState::Unmapped, Transition::StartUnmapping) is None,
        run(MappingState::Unmapped, seq![Transition::StartUnmapping]) is None,
{
}

} // verus!
