use vstd::prelude::*;

verus! {

/// What a sphere march does after probing the scene's distance at its current
/// position.
#[derive(Clone, Copy, Debug, PartialEq, Eq, Structural)]
pub enum MarchStep {
    /// The distance is within the collision tolerance: the ray hit a surface.
    Converged,
    /// Step forward by the distance and probe again.
    Advance,
    /// The step budget is spent without a hit: the ray missed.
    Exhausted,
}

pub open spec fn after_probe_spec(probe: nat, max_steps: nat, within_tolerance: bool) -> MarchStep {
    if within_tolerance {
        MarchStep::Converged
    } else if probe + 1 >= max_steps {
        MarchStep::Exhausted
    } else {
        MarchStep::Advance
    }
}

/// Decides the march after its probe number `probe` (counted from zero) out
/// of a budget of `max_steps` probes.
pub fn after_probe(probe: u32, max_steps: u32, within_tolerance: bool) -> (r: MarchStep)
    requires
        probe < max_steps,
    ensures
        r == after_probe_spec(probe as nat, max_steps as nat, within_tolerance),
{
    if within_tolerance {
        MarchStep::Converged
    } else if probe + 1 == max_steps {
        MarchStep::Exhausted
    } else {
        MarchStep::Advance
    }
}

/// A march whose probes never come within tolerance advances after each of
/// its first `max_steps - 1` probes and reports a miss after exactly
/// `max_steps` probes.
pub proof fn lemma_unconverged_march_exhausts(max_steps: nat, probe: nat)
    requires
        probe < max_steps,
    ensures
        after_probe_spec(probe, max_steps, false) == (if probe + 1 == max_steps {
            MarchStep::Exhausted
        } else {
            MarchStep::Advance
        }),
{
}

} // verus!
