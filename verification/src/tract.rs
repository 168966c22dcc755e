//! Layout of the vocal tract: how many segments the mouth and the nose have,
//! where the articulators sit, and which segments a noise source feeds.

use vstd::prelude::*;

verus! {

/// Number of segments of the main tract, from the glottis (segment 0) to the
/// lips (segment `N - 1`).
pub const N: usize = 44;

/// First segment of the tongue blade.
pub const BLADE_START: usize = 10;

/// First segment of the tongue tip.
pub const TIP_START: usize = 32;

/// First segment of the lips.
pub const LIP_START: usize = 39;

/// Number of segments of the nose.
pub const NOSE_LEN: usize = 28;

/// Segment of the main tract at which the nose branches off.
pub const NOSE_START: usize = N - NOSE_LEN + 1;

/// First position along the tract at which turbulence is fed in.
pub const TURBULENCE_START: usize = 2;

/// The segment `offset` segments after `cell`, if the tract reaches that far.
pub open spec fn fed_segment(cell: nat, offset: nat) -> Option<usize> {
    if cell + offset < N {
        Some((cell + offset) as usize)
    } else {
        None
    }
}

/// The two segments between which the noise of a turbulence source is split:
/// the ones on either side of its position.
///
/// A source at position `cell + delta`, with `0 <= delta < 1`, feeds segment
/// `cell` with the weight `1 - delta` and segment `cell + 1` with the weight
/// `delta`. A segment beyond the lips receives nothing.
pub fn turbulence_segments(cell: usize) -> (r: (Option<usize>, Option<usize>))
    ensures
        r.0 == fed_segment(cell as nat, 0),
        r.1 == fed_segment(cell as nat, 1),
{
    let near = if cell < N {
        Some(cell)
    } else {
        None
    };
    let far = if cell < N - 1 {
        Some(cell + 1)
    } else {
        None
    };
    (near, far)
}

/// Both fed segments lie inside the tract, the far one directly after the
/// near one, and a source that feeds the far segment also feeds the near one.
pub proof fn lemma_fed_segments(cell: nat)
    ensures
        fed_segment(cell, 0) matches Some(near) ==> near == cell && near < N,
        fed_segment(cell, 1) matches Some(far) ==> far == cell + 1 && far < N && fed_segment(
            cell,
            0,
        ) == Some((far - 1) as usize),
        cell <= N - 2 <==> fed_segment(cell, 1) is Some,
        cell <= N - 1 <==> fed_segment(cell, 0) is Some,
{
}

} // verus!
