use vstd::prelude::*;
use crate::color::{Rgb, WEIGHT_ONE};

verus! {

/// What a surface shows when a ray lands on it: its base colour and how much
/// of a reflected ray's colour replaces that base, in thousandths.
#[derive(Clone, Copy, Debug, PartialEq, Eq, Structural)]
pub struct Material {
    pub color: Rgb,
    pub reflectivity: u32,
}

/// Why a scene cannot be rendered.
#[derive(Clone, Copy, Debug, PartialEq, Eq, Structural)]
pub enum SceneError {
    /// The scene has no surface at all.
    Empty,
    /// The surface at this index has a reflectivity above one whole.
    ReflectivityOutOfRange(usize),
}

impl Material {
    /// A reflectivity lies between zero and one whole.
    pub open spec fn wf(&self) -> bool {
        self.reflectivity <= WEIGHT_ONE
    }

    /// A material, or `None` where the reflectivity exceeds one whole.
    pub fn new(color: Rgb, reflectivity: u32) -> (r: Option<Material>)
        ensures
            r == (if reflectivity <= WEIGHT_ONE {
                Some(Material { color, reflectivity })
            } else {
                None
            }),
    {
        if reflectivity <= WEIGHT_ONE {
            Some(Material { color, reflectivity })
        } else {
            None
        }
    }
}

pub open spec fn all_wf(materials: Seq<Material>) -> bool {
    forall|i: int| 0 <= i < materials.len() ==> #[trigger] materials[i].wf()
}

/// Checks the materials of a scene before a render: the scene must have at
/// least one surface, and the first surface whose reflectivity is out of
/// range is reported by its index.
pub fn validate_materials(materials: &[Material]) -> (r: Result<(), SceneError>)
    ensures
        materials@.len() == 0 <==> r == Err::<(), SceneError>(SceneError::Empty),
        r is Ok <==> materials@.len() > 0 && all_wf(materials@),
        forall|k: usize|
            r == Err::<(), SceneError>(SceneError::ReflectivityOutOfRange(k)) <==> (k
                < materials@.len() && !materials@[k as int].wf() && forall|j: int|
                0 <= j < k ==> #[trigger] materials@[j].wf()),
{
    if materials.len() == 0 {
        return Err(SceneError::Empty);
    }
    let mut i: usize = 0;
    while i < materials.len()
        invariant
            i <= materials@.len(),
            forall|j: int| 0 <= j < i ==> #[trigger] materials@[j].wf(),
        decreases materials@.len() - i,
    {
        if materials[i].reflectivity > WEIGHT_ONE {
            assert(!materials@[i as int].wf());
            assert forall|k: usize|
                k < materials@.len() && !materials@[k as int].wf() && (forall|j: int|
                    0 <= j < k ==> #[trigger] materials@[j].wf()) implies k == i by {
                if k > i {
                    assert(materials@[i as int].wf());
                }
            }
            return Err(SceneError::ReflectivityOutOfRange(i));
        }
        i = i + 1;
    }
    Ok(())
}

} // verus!
