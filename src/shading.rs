//! Control of the recursive radiance estimate: how many rays a light path may
//! trace, when it ends black, and after how many diffuse bounces it reaches the
//! sky. The colour arithmetic itself is done by the caller: a path that escapes
//! after `k` bounces contributes the sky gradient of its last ray scaled by
//! one half `k` times.

use vstd::prelude::*;

verus! {

/// How a light path ends.
pub enum PathEnd {
    /// The depth budget ran out before the path escaped: it contributes black.
    Absorbed,
    /// The ray traced after this many bounces missed the scene: the path
    /// contributes the sky gradient of that ray, halved once per bounce.
    Escaped(nat),
}

/// The shading recursion reduced to its control. `depth` rays may still be
/// traced, `bounces` bounces were made so far, and `hit(k)` tells whether the
/// ray traced after `k` bounces hits the scene.
pub open spec fn path_end(depth: nat, bounces: nat, hit: spec_fn(nat) -> bool) -> PathEnd
    decreases depth,
{
    if depth == 0 {
        PathEnd::Absorbed
    } else if hit(bounces) {
        path_end((depth - 1) as nat, bounces + 1, hit)
    } else {
        PathEnd::Escaped(bounces)
    }
}

/// Number of rays that the shading recursion hands to the scene.
pub open spec fn rays_traced(depth: nat, bounces: nat, hit: spec_fn(nat) -> bool) -> nat
    decreases depth,
{
    if depth == 0 {
        0
    } else if hit(bounces) {
        1 + rays_traced((depth - 1) as nat, bounces + 1, hit)
    } else {
        1
    }
}

/// What a light path asks of the code that drives it.
pub enum Action {
    /// Trace the current ray against the scene and report the answer to
    /// `PathState::record`.
    Trace,
    /// The path is over and contributes black.
    Black,
    /// The path is over and contributes the sky gradient of the current ray,
    /// halved `bounces` times.
    Sky { bounces: u32 },
}

/// A light path in progress: the rays it may still trace and the diffuse
/// bounces made so far.
#[derive(Clone, Copy)]
pub struct PathState {
    pub depth_left: u32,
    pub bounces: u32,
}

impl PathState {
    /// How the path ends when the scene answers as `hit` says.
    pub open spec fn end(self, hit: spec_fn(nat) -> bool) -> PathEnd {
        path_end(self.depth_left as nat, self.bounces as nat, hit)
    }

    /// Rays the path still traces when the scene answers as `hit` says.
    pub open spec fn rays_left(self, hit: spec_fn(nat) -> bool) -> nat {
        rays_traced(self.depth_left as nat, self.bounces as nat, hit)
    }

    /// Starts a path that may trace `max_depth` rays. With no budget at all the
    /// path is black at once; otherwise its first ray is to be traced.
    pub fn begin(max_depth: u32) -> (r: (PathState, Action))
        ensures
            r.0.depth_left == max_depth,
            r.0.bounces == 0,
            r.1 == (if max_depth == 0 {
                Action::Black
            } else {
                Action::Trace
            }),
    {
        let state = PathState { depth_left: max_depth, bounces: 0 };
        if max_depth == 0 {
            (state, Action::Black)
        } else {
            (state, Action::Trace)
        }
    }

    /// Takes the scene's answer for the ray just traced. A miss ends the path on
    /// the sky; a hit spends one ray of the budget on a bounce, and ends the
    /// path black when that was the last one.
    pub fn record(&mut self, hit: bool) -> (r: Action)
        requires
            old(self).depth_left > 0,
            old(self).depth_left + old(self).bounces <= u32::MAX,
        ensures
            hit ==> final(self).depth_left == old(self).depth_left - 1,
            hit ==> final(self).bounces == old(self).bounces + 1,
            !hit ==> *final(self) == *old(self),
            r == (if !hit {
                Action::Sky { bounces: old(self).bounces }
            } else if old(self).depth_left == 1 {
                Action::Black
            } else {
                Action::Trace
            }),
            forall|h: spec_fn(nat) -> bool|
                h(old(self).bounces as nat) == hit ==> match r {
                    Action::Trace => {
                        &&& final(self).end(h) == old(self).end(h)
                        &&& old(self).rays_left(h) == 1 + final(self).rays_left(h)
                    },
                    Action::Black => old(self).end(h) == PathEnd::Absorbed,
                    Action::Sky { bounces } => old(self).end(h) == PathEnd::Escaped(
                        bounces as nat,
                    ),
                },
    {
        if !hit {
            return Action::Sky { bounces: self.bounces };
        }
        self.depth_left = self.depth_left - 1;
        self.bounces = self.bounces + 1;
        if self.depth_left == 0 {
            Action::Black
        } else {
            Action::Trace
        }
    }
}

/// With no depth budget left, a path is black whatever the scene holds.
pub proof fn lemma_no_budget_is_black(bounces: nat, hit: spec_fn(nat) -> bool)
    ensures
        path_end(0, bounces, hit) == PathEnd::Absorbed,
        rays_traced(0, bounces, hit) == 0,
{
}

/// A primary ray that misses the scene gets the sky gradient unscaled, for
/// every positive depth budget alike.
pub proof fn lemma_miss_is_plain_sky(depth: nat, hit: spec_fn(nat) -> bool)
    requires
        depth > 0,
        !hit(0),
    ensures
        path_end(depth, 0, hit) == PathEnd::Escaped(0),
        rays_traced(depth, 0, hit) == 1,
{
}

/// A path traces at most `depth` rays, and one that escapes does so within the
/// budget.
pub proof fn lemma_path_within_budget(depth: nat, bounces: nat, hit: spec_fn(nat) -> bool)
    ensures
        rays_traced(depth, bounces, hit) <= depth,
        path_end(depth, bounces, hit) matches PathEnd::Escaped(k) ==> bounces <= k < bounces
            + depth && rays_traced(depth, bounces, hit) == k - bounces + 1,
    decreases depth,
{
    if depth > 0 && hit(bounces) {
        lemma_path_within_budget((depth - 1) as nat, bounces + 1, hit);
    }
}

} // verus!
