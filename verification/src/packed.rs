use vstd::prelude::*;

verus! {

/// Component bit patterns of a 4-component vector (a point, direction, or
/// RGBA color). The verified core carries these encodings untouched; the
/// arithmetic on the values they encode lives with the rendering layer.
#[derive(Clone, Copy, PartialEq, Eq, Structural, Debug)]
pub struct PackedVector {
    pub x: u32,
    pub y: u32,
    pub z: u32,
    pub w: u32,
}

impl PackedVector {
    /// All four components encode zero.
    pub fn zeroed() -> (r: Self)
        ensures
            r == (PackedVector { x: 0, y: 0, z: 0, w: 0 }),
    {
        PackedVector { x: 0, y: 0, z: 0, w: 0 }
    }
}

/// Component bit patterns of a column-major 4x4 matrix, one packed vector
/// per column.
#[derive(Clone, Copy, PartialEq, Eq, Structural, Debug)]
pub struct PackedMatrix {
    pub c0: PackedVector,
    pub c1: PackedVector,
    pub c2: PackedVector,
    pub c3: PackedVector,
}

} // verus!
