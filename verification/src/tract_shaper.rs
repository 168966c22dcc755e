//! The shape of the tract at rest, the speed at which it moves, and the
//! bookkeeping of closures that turns a release into a transient.

use crate::tract::{BLADE_START, LIP_START, N, NOSE_LEN, NOSE_START, TIP_START};
use vstd::prelude::*;

verus! {

/// Last segment of the narrow part of the tract above the glottis.
pub const GLOTTAL_END: usize = 7;

/// Number of segments over which the speed of return rises from its value in
/// the throat to its value at the tongue tip.
pub const RETURN_RAMP_LEN: usize = TIP_START - NOSE_START;

/// How much the tongue curve is flattened at a segment.
#[derive(Clone, Copy, Debug, PartialEq, Eq, Structural)]
pub enum Trim {
    /// The curve as it is.
    Full,
    /// The curve scaled by 0.94.
    Light,
    /// The curve scaled by 0.8.
    Strong,
}

/// What determines the diameter of a segment of the main tract at rest.
#[derive(Clone, Copy, Debug, PartialEq, Eq, Structural)]
pub enum RestShape {
    /// The narrow part above the glottis, of diameter 0.6.
    Glottal,
    /// The throat, of diameter 1.1.
    Throat,
    /// The part that follows the cosine curve of the tongue.
    Tongue(Trim),
    /// The lips, of diameter 1.5.
    Lips,
}

/// What determines the diameter of a segment of the nose.
#[derive(Clone, Copy, Debug, PartialEq, Eq, Structural)]
pub enum NoseShape {
    /// The first segment, which is as wide as the velum is open.
    Velum,
    /// The first half, which widens with the distance from the velum.
    Widening,
    /// The second half, which narrows towards the nostrils.
    Narrowing,
}

/// The flattening of the tongue curve at segment `i`: strong on the segment
/// before the lips, light on the one before that and on the first segment of
/// the blade.
pub open spec fn trim_of(i: nat) -> Trim {
    if i == LIP_START - 1 {
        Trim::Strong
    } else if i == BLADE_START || i == LIP_START - 2 {
        Trim::Light
    } else {
        Trim::Full
    }
}

/// The shape of segment `i` of the main tract at rest.
pub open spec fn rest_shape_of(i: nat) -> RestShape {
    if i < GLOTTAL_END {
        RestShape::Glottal
    } else if i < BLADE_START {
        RestShape::Throat
    } else if i < LIP_START {
        RestShape::Tongue(trim_of(i))
    } else {
        RestShape::Lips
    }
}

/// The shape of segment `i` of the nose.
pub open spec fn nose_shape_of(i: nat) -> NoseShape {
    if i == 0 {
        NoseShape::Velum
    } else if 2 * i < NOSE_LEN {
        NoseShape::Widening
    } else {
        NoseShape::Narrowing
    }
}

/// How far segment `i` is up the ramp of the speed of return: 0 up to the
/// segment where the nose branches off, `RETURN_RAMP_LEN` from the tongue tip
/// on, and one more with every segment in between.
pub open spec fn return_ramp_of(i: nat) -> nat {
    if i < NOSE_START {
        0
    } else if i >= TIP_START {
        RETURN_RAMP_LEN as nat
    } else {
        (i - NOSE_START) as nat
    }
}

/// The shape of segment `i` of the main tract at rest.
pub fn rest_shape(i: usize) -> (r: RestShape)
    ensures
        r == rest_shape_of(i as nat),
{
    if i < GLOTTAL_END {
        RestShape::Glottal
    } else if i < BLADE_START {
        RestShape::Throat
    } else if i >= LIP_START {
        RestShape::Lips
    } else if i == LIP_START - 1 {
        RestShape::Tongue(Trim::Strong)
    } else if i == BLADE_START || i == LIP_START - 2 {
        RestShape::Tongue(Trim::Light)
    } else {
        RestShape::Tongue(Trim::Full)
    }
}

/// The shape of segment `i` of the nose.
pub fn nose_shape(i: usize) -> (r: NoseShape)
    ensures
        r == nose_shape_of(i as nat),
{
    if i == 0 {
        NoseShape::Velum
    } else if i < NOSE_LEN / 2 {
        NoseShape::Widening
    } else {
        NoseShape::Narrowing
    }
}

/// The step of segment `i` on the ramp of the speed of return. A segment on
/// step `k` grows towards its target at `0.6 + 0.4 * k / RETURN_RAMP_LEN`
/// times the speed at which it shrinks.
pub fn return_ramp(i: usize) -> (r: usize)
    ensures
        r == return_ramp_of(i as nat),
        r <= RETURN_RAMP_LEN,
{
    if i < NOSE_START {
        0
    } else if i >= TIP_START {
        RETURN_RAMP_LEN
    } else {
        i - NOSE_START
    }
}

/// The speed of return never falls on the way from the glottis to the lips.
pub proof fn lemma_return_ramp_monotonic(i: nat, j: nat)
    requires
        i <= j,
    ensures
        return_ramp_of(i) <= return_ramp_of(j) <= RETURN_RAMP_LEN,
{
}

/// Whether segment `i` is the lowest closed segment of `closed`.
pub open spec fn is_first_closed(closed: Seq<bool>, i: int) -> bool {
    &&& 0 <= i < closed.len()
    &&& closed[i]
    &&& forall|j: int| 0 <= j < i ==> !closed[j]
}

/// The lowest closed segment, where `closed[i]` tells whether segment `i` is
/// closed, or `None` if the tract is open along its whole length.
pub fn first_closed(closed: &[bool]) -> (r: Option<usize>)
    ensures
        match r {
            Some(i) => is_first_closed(closed@, i as int),
            None => forall|j: int| 0 <= j < closed@.len() ==> !closed@[j],
        },
{
    let mut i: usize = 0;
    while i < closed.len()
        invariant
            i <= closed@.len(),
            forall|j: int| 0 <= j < i ==> !closed@[j],
        decreases closed@.len() - i,
    {
        if closed[i] {
            return Some(i);
        }
        i += 1;
    }
    None
}

/// Remembers from one block to the next where the tract was closed.
pub struct ObstructionTracker {
    last: Option<usize>,
}

impl ObstructionTracker {
    #[verifier::type_invariant]
    spec fn inv(self) -> bool {
        self.last matches Some(i) ==> i < N
    }

    /// The lowest segment that was closed at the last update, if any was.
    pub closed spec fn last_obstruction(self) -> Option<usize> {
        self.last
    }

    /// A tracker for a tract that has been open so far.
    pub fn new() -> (r: Self)
        ensures
            r.last_obstruction() is None,
    {
        ObstructionTracker { last: None }
    }

    /// The lowest segment that was closed at the last update, if any was.
    pub fn obstruction(&self) -> (r: Option<usize>)
        ensures
            r == self.last_obstruction(),
    {
        self.last
    }

    /// Takes note of the closures of this block and tells whether a closure
    /// was released since the last one.
    ///
    /// `closed[i]` tells whether segment `i` is closed now, and `nose_sealed`
    /// whether the velum is closed far enough for pressure to build up. A
    /// release is reported, with the segment that was closed, exactly if the
    /// tract was closed at the last update, is open everywhere now, and the
    /// nose is sealed.
    pub fn update(&mut self, closed: &[bool], nose_sealed: bool) -> (release: Option<usize>)
        requires
            closed@.len() == N,
        ensures
            match final(self).last_obstruction() {
                Some(i) => is_first_closed(closed@, i as int),
                None => forall|j: int| 0 <= j < N ==> !closed@[j],
            },
            release == if old(self).last_obstruction() is Some && final(self).last_obstruction()
                is None && nose_sealed {
                old(self).last_obstruction()
            } else {
                None
            },
            release matches Some(i) ==> i < N,
    {
        proof {
            use_type_invariant(&*self);
        }
        let now = first_closed(closed);
        let release = if self.last.is_some() && now.is_none() && nose_sealed {
            self.last
        } else {
            None
        };
        *self = ObstructionTracker { last: now };
        release
    }
}

} // verus!
