use vstd::prelude::*;

verus! {

/// Backend device specific unit (for example in range -1.0 .. 1.0 for OpenGL and Direct3D).
#[derive(Hash, Clone, Copy, Debug, PartialEq, Eq, Structural, PartialOrd, Ord)]
pub struct DeviceUnit;

/// Backend texture specific unit (for example in range 0.0 .. 1.0 for OpenGL and Direct3D).
#[derive(Hash, Clone, Copy, Debug, PartialEq, Eq, Structural, PartialOrd, Ord)]
pub struct UvUnit;

} // verus!
