use vstd::prelude::*;
use crate::color::{Rgb, WEIGHT_ONE, black, black_spec, mix, mix_spec};
use crate::material::{Material, all_wf};

verus! {

/// How one march of a ray ended: it left the scene, or it converged on the
/// surface with this index, from which the light was seen or not.
#[derive(Clone, Copy, Debug, PartialEq, Eq, Structural)]
pub enum MarchOutcome {
    Miss,
    Hit { surface: usize, lit: bool },
}

/// The colour that a ray brings back, with the reflectivity of what it hit.
#[derive(Clone, Copy, Debug, PartialEq, Eq, Structural)]
pub struct Shade {
    pub color: Rgb,
    pub reflectivity: u32,
}

pub open spec fn background_spec() -> Rgb {
    Rgb { r: 50, g: 50, b: 50 }
}

/// The flat grey of a ray that hits nothing.
pub fn background() -> (c: Rgb)
    ensures
        c == background_spec(),
{
    Rgb { r: 50, g: 50, b: 50 }
}

pub open spec fn miss_shade() -> Shade {
    Shade { color: background_spec(), reflectivity: 0 }
}

/// The shade of a hit before any reflection: the surface's colour where the
/// light is seen, black in shadow; the surface's reflectivity either way.
pub open spec fn direct_shade(m: Material, lit: bool) -> Shade {
    Shade { color: if lit { m.color } else { black_spec() }, reflectivity: m.reflectivity }
}

/// The shade of the ray whose march is `trace[i]`, where `trace[i + 1]` is the
/// march of its mirror-reflected ray and `remaining` reflections may still be
/// followed. A trace that ends early reads as a miss.
pub open spec fn shade_spec(
    materials: Seq<Material>,
    trace: Seq<MarchOutcome>,
    i: nat,
    remaining: nat,
) -> Shade
    decreases remaining,
{
    if i >= trace.len() {
        miss_shade()
    } else {
        match trace[i as int] {
            MarchOutcome::Miss => miss_shade(),
            MarchOutcome::Hit { surface, lit } => {
                let base = direct_shade(materials[surface as int], lit);
                if remaining == 0 {
                    base
                } else {
                    let reflected = shade_spec(materials, trace, i + 1, (remaining - 1) as nat);
                    Shade {
                        color: mix_spec(reflected.color, base.color, base.reflectivity),
                        reflectivity: base.reflectivity,
                    }
                }
            },
        }
    }
}

/// Every hit of the trace names a surface of the scene.
pub open spec fn hits_in_scene(materials: Seq<Material>, trace: Seq<MarchOutcome>) -> bool {
    forall|i: int|
        0 <= i < trace.len() ==> match #[trigger] trace[i] {
            MarchOutcome::Miss => true,
            MarchOutcome::Hit { surface, lit: _ } => surface < materials.len(),
        }
}

fn shade_from(materials: &[Material], trace: &[MarchOutcome], i: usize, remaining: u32) -> (r:
    Shade)
    requires
        all_wf(materials@),
        hits_in_scene(materials@, trace@),
    ensures
        r == shade_spec(materials@, trace@, i as nat, remaining as nat),
        r.reflectivity <= WEIGHT_ONE,
    decreases remaining,
{
    if i >= trace.len() {
        return Shade { color: background(), reflectivity: 0 };
    }
    match trace[i] {
        MarchOutcome::Miss => Shade { color: background(), reflectivity: 0 },
        MarchOutcome::Hit { surface, lit } => {
            let m = materials[surface];
            assert(materials@[surface as int].wf());
            let base_color = if lit {
                m.color
            } else {
                black()
            };
            if remaining == 0 {
                Shade { color: base_color, reflectivity: m.reflectivity }
            } else {
                let reflected = shade_from(materials, trace, i + 1, remaining - 1);
                Shade {
                    color: mix(reflected.color, base_color, m.reflectivity),
                    reflectivity: m.reflectivity,
                }
            }
        },
    }
}

/// Composites the marches of a ray and of its successive reflections into the
/// colour the ray brings back, following at most `bounces` reflections. On a
/// hit the direct shade is blended under the reflected colour by the
/// surface's reflectivity, also where the hit lies in shadow.
pub fn shade(materials: &[Material], trace: &[MarchOutcome], bounces: u32) -> (r: Shade)
    requires
        all_wf(materials@),
        hits_in_scene(materials@, trace@),
    ensures
        r == shade_spec(materials@, trace@, 0, bounces as nat),
{
    shade_from(materials, trace, 0, bounces)
}

/// Whether the ray of the last march must be reflected and marched again:
/// the last march hit a surface and fewer than `bounces` reflections have
/// been marched so far.
pub fn needs_reflection(trace: &[MarchOutcome], bounces: u32) -> (r: bool)
    ensures
        r == (trace@.len() > 0 && trace@.last() is Hit && trace@.len() <= bounces as int),
{
    if trace.len() == 0 || trace.len() > bounces as usize {
        return false;
    }
    match trace[trace.len() - 1] {
        MarchOutcome::Miss => false,
        MarchOutcome::Hit { .. } => true,
    }
}

/// With no reflection to follow, a hit is shaded from its own surface alone:
/// whatever the later marches of the trace hold, the shade is the direct one,
/// with no blending.
pub proof fn lemma_no_bounce_is_direct(
    materials: Seq<Material>,
    trace1: Seq<MarchOutcome>,
    trace2: Seq<MarchOutcome>,
    surface: usize,
    lit: bool,
)
    requires
        trace1.len() > 0,
        trace2.len() > 0,
        trace1[0] == (MarchOutcome::Hit { surface, lit }),
        trace2[0] == trace1[0],
    ensures
        shade_spec(materials, trace1, 0, 0) == direct_shade(materials[surface as int], lit),
        shade_spec(materials, trace1, 0, 0) == shade_spec(materials, trace2, 0, 0),
{
}

} // verus!
