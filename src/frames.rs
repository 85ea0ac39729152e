use crate::enums::ReferenceFrame;
use vstd::prelude::*;

verus! {

/// Place of a frame on the chain of rotations the propagation library
/// offers directly: J2000 - TEME - EFG - ECR. Each frame converts directly
/// only to its neighbours on the chain.
pub open spec fn chain_index(f: ReferenceFrame) -> int {
    match f {
        ReferenceFrame::J2000 => 0,
        ReferenceFrame::TEME => 1,
        ReferenceFrame::EFG => 2,
        ReferenceFrame::ECR => 3,
    }
}

pub open spec fn chain_frame(i: int) -> ReferenceFrame {
    if i <= 0 {
        ReferenceFrame::J2000
    } else if i == 1 {
        ReferenceFrame::TEME
    } else if i == 2 {
        ReferenceFrame::EFG
    } else {
        ReferenceFrame::ECR
    }
}

/// Whether the library rotates directly between the two frames.
pub open spec fn is_direct(a: ReferenceFrame, b: ReferenceFrame) -> bool {
    chain_index(a) - chain_index(b) == 1 || chain_index(b) - chain_index(a) == 1
}

/// The frames a state passes through on its way from `from` to `to`, one
/// direct rotation each, `to` last; empty when the two are the same.
pub open spec fn route_of(from: ReferenceFrame, to: ReferenceFrame) -> Seq<ReferenceFrame> {
    let i = chain_index(from);
    let j = chain_index(to);
    if i <= j {
        Seq::new((j - i) as nat, |k: int| chain_frame(i + k + 1))
    } else {
        Seq::new((i - j) as nat, |k: int| chain_frame(i - k - 1))
    }
}

impl ReferenceFrame {
    fn chain_position(&self) -> (r: usize)
        ensures
            r == chain_index(*self),
    {
        match self {
            ReferenceFrame::J2000 => 0,
            ReferenceFrame::TEME => 1,
            ReferenceFrame::EFG => 2,
            ReferenceFrame::ECR => 3,
        }
    }
}

fn frame_at(i: usize) -> (r: ReferenceFrame)
    requires
        i <= 3,
    ensures
        r == chain_frame(i as int),
{
    if i == 0 {
        ReferenceFrame::J2000
    } else if i == 1 {
        ReferenceFrame::TEME
    } else if i == 2 {
        ReferenceFrame::EFG
    } else {
        ReferenceFrame::ECR
    }
}

/// The direct rotations that take a state from `from` to `to` (see
/// `route_of`).
pub fn frame_route(from: ReferenceFrame, to: ReferenceFrame) -> (r: Vec<ReferenceFrame>)
    ensures
        r@ == route_of(from, to),
{
    let i = from.chain_position();
    let j = to.chain_position();
    let mut r: Vec<ReferenceFrame> = Vec::new();
    if i <= j {
        let mut k: usize = i;
        while k < j
            invariant
                i <= k <= j <= 3,
                i == chain_index(from),
                j == chain_index(to),
                r@ =~= Seq::new((k - i) as nat, |m: int| chain_frame(i + m + 1)),
            decreases j - k,
        {
            r.push(frame_at(k + 1));
            k = k + 1;
        }
    } else {
        let mut k: usize = i;
        while k > j
            invariant
                j <= k <= i <= 3,
                i == chain_index(from),
                j == chain_index(to),
                r@ =~= Seq::new((i - k) as nat, |m: int| chain_frame(i - m - 1)),
            decreases k - j,
        {
            r.push(frame_at(k - 1));
            k = k - 1;
        }
    }
    r
}

/// A route starts with a direct rotation out of `from`, takes only direct
/// rotations, and ends in `to`.
pub proof fn lemma_route_is_direct(from: ReferenceFrame, to: ReferenceFrame)
    ensures
        from == to <==> route_of(from, to).len() == 0,
        route_of(from, to).len() > 0 ==> is_direct(from, route_of(from, to)[0]),
        route_of(from, to).len() > 0 ==> route_of(from, to).last() == to,
        forall|k: int|
            0 <= k < route_of(from, to).len() - 1 ==> is_direct(
                #[trigger] route_of(from, to)[k],
                route_of(from, to)[k + 1],
            ),
{
}

} // verus!
