use vstd::prelude::*;

verus! {

/// The number of steps after which a pixel that has met no stopping condition
/// is given up as unclassified.
pub const MAX_ITERATIONS: usize = 500;

/// Where a pixel's iteration ended up.
#[derive(Clone, Copy, Debug, PartialEq, Eq, Structural)]
pub enum Attractor {
    /// It came within reach of the root with this index in the root table.
    Root(usize),
    /// It collapsed onto the origin, or used up every step without stopping.
    Unclassified,
    /// A component escaped past the divergence threshold.
    Diverged,
}

/// What one pixel's iteration gave: where it ended and after how many steps.
#[derive(Clone, Copy, Debug, PartialEq, Eq, Structural)]
pub struct PixelResult {
    pub attractor: Attractor,
    pub iterations: usize,
}

/// What the numeric test of the current iterate found, before the update rule
/// is applied.
#[derive(Clone, Copy, Debug, PartialEq, Eq, Structural)]
pub enum Probe {
    /// The squared magnitude fell below the origin threshold.
    Collapsed,
    /// Near the unit circle and within the match distance of this root.
    Matched(usize),
    /// Near the unit circle and a component past the divergence threshold.
    Escaped,
    /// No stopping condition holds: apply the update rule and go on.
    Pending,
}

/// What to do after a probe: stop with a result, or update and probe again
/// with the given step number.
#[derive(Clone, Copy, Debug, PartialEq, Eq, Structural)]
pub enum Step {
    Stop(PixelResult),
    Continue(usize),
}

/// A pixel result that a row of a picture of this degree may hold: at most
/// `MAX_ITERATIONS` steps, and a root index inside the root table.
pub open spec fn pixel_valid(p: PixelResult, degree: nat) -> bool {
    &&& p.iterations <= MAX_ITERATIONS
    &&& match p.attractor {
        Attractor::Root(k) => k < degree,
        _ => true,
    }
}

/// The decision taken at step `iteration` on what the probe found.
pub open spec fn next_step(iteration: nat, probe: Probe, degree: nat) -> Step {
    if iteration >= MAX_ITERATIONS {
        Step::Stop(PixelResult { attractor: Attractor::Unclassified, iterations: MAX_ITERATIONS })
    } else {
        match probe {
            Probe::Collapsed => Step::Stop(
                PixelResult { attractor: Attractor::Unclassified, iterations: iteration as usize },
            ),
            Probe::Matched(k) => Step::Stop(
                PixelResult {
                    attractor: if k < degree {
                        Attractor::Root(k)
                    } else {
                        Attractor::Unclassified
                    },
                    iterations: (iteration + 1) as usize,
                },
            ),
            Probe::Escaped => Step::Stop(
                PixelResult { attractor: Attractor::Diverged, iterations: (iteration + 1) as usize },
            ),
            Probe::Pending => Step::Continue((iteration + 1) as usize),
        }
    }
}

/// Decides, at step `iteration` of a pixel's iteration, whether to stop and
/// with what result. A collapse onto the origin stops without counting the
/// step; a matched root or an escape counts it; once `MAX_ITERATIONS` steps
/// have run the pixel is unclassified whatever the probe says.
pub fn decide(iteration: usize, probe: Probe, degree: usize) -> (s: Step)
    requires
        iteration <= MAX_ITERATIONS,
    ensures
        s == next_step(iteration as nat, probe, degree as nat),
        match s {
            Step::Stop(p) => pixel_valid(p, degree as nat),
            Step::Continue(n) => n == iteration + 1 && n <= MAX_ITERATIONS,
        },
{
    if iteration >= MAX_ITERATIONS {
        return Step::Stop(
            PixelResult { attractor: Attractor::Unclassified, iterations: MAX_ITERATIONS },
        );
    }
    match probe {
        Probe::Collapsed => Step::Stop(
            PixelResult { attractor: Attractor::Unclassified, iterations: iteration },
        ),
        Probe::Matched(k) => {
            let attractor = if k < degree {
                Attractor::Root(k)
            } else {
                Attractor::Unclassified
            };
            Step::Stop(PixelResult { attractor, iterations: iteration + 1 })
        },
        Probe::Escaped => Step::Stop(
            PixelResult { attractor: Attractor::Diverged, iterations: iteration + 1 },
        ),
        Probe::Pending => Step::Continue(iteration + 1),
    }
}

} // verus!
