//! The parts of the camera that are exact: the shape of its view, and the
//! fixed matrix that corrects the depth range of its projection.

use vstd::prelude::*;

verus! {

/// The camera's aspect ratio as the exact fraction `width / height`.
#[derive(Copy, Clone, Debug, PartialEq, Eq, Structural)]
pub struct AspectRatio {
    pub width: u32,
    pub height: u32,
}

/// The depth correction, column by column, each entry counted in halves.
///
/// The projection leaves depths between `-w` and `w`; the device clips to
/// depths between `0` and `w`. The correction is multiplied onto the
/// projection from the left and takes the one range to the other.
pub const DEPTH_CORRECTION_HALVES: [[i8; 4]; 4] = [
    [2, 0, 0, 0],
    [0, 2, 0, 0],
    [0, 0, 1, 0],
    [0, 0, 1, 2],
];

/// A point in clip space.
pub struct ClipPoint {
    pub x: int,
    pub y: int,
    pub z: int,
    pub w: int,
}

/// Entry of the depth correction in column `c` and row `r`, in halves.
pub open spec fn correction_entry(c: int, r: int) -> int
    recommends
        0 <= c < 4,
        0 <= r < 4,
{
    DEPTH_CORRECTION_HALVES[c][r] as int
}

/// Row `r` of twice the product of the depth correction with `p`.
pub open spec fn corrected_row(p: ClipPoint, r: int) -> int
    recommends
        0 <= r < 4,
{
    correction_entry(0, r) * p.x + correction_entry(1, r) * p.y + correction_entry(2, r) * p.z
        + correction_entry(3, r) * p.w
}

/// Twice the product of the depth correction with `p`.
pub open spec fn corrected_twice(p: ClipPoint) -> ClipPoint {
    ClipPoint {
        x: corrected_row(p, 0),
        y: corrected_row(p, 1),
        z: corrected_row(p, 2),
        w: corrected_row(p, 3),
    }
}

/// The depth correction leaves `x`, `y` and `w` as they are and replaces the
/// depth by the mean of depth and `w`.
pub proof fn lemma_depth_correction_is_affine(p: ClipPoint)
    ensures
        corrected_twice(p).x == 2 * p.x,
        corrected_twice(p).y == 2 * p.y,
        corrected_twice(p).w == 2 * p.w,
        corrected_twice(p).z == p.z + p.w,
{
    lemma_correction_entries();
}

/// A point that the projection leaves inside its depth range, between `-w`
/// and `w`, lies inside the device's depth range, between `0` and `w`, once
/// corrected; the near plane goes to depth `0` and the far plane to `w`.
pub proof fn lemma_depth_correction_maps_range(p: ClipPoint)
    requires
        -p.w <= p.z <= p.w,
    ensures
        0 <= corrected_twice(p).z <= corrected_twice(p).w,
        p.z == -p.w ==> corrected_twice(p).z == 0,
        p.z == p.w ==> corrected_twice(p).z == corrected_twice(p).w,
{
    lemma_depth_correction_is_affine(p);
}

/// The entries of the depth correction, one by one.
proof fn lemma_correction_entries()
    ensures
        correction_entry(0, 0) == 2 && correction_entry(0, 1) == 0 && correction_entry(0, 2) == 0
            && correction_entry(0, 3) == 0,
        correction_entry(1, 0) == 0 && correction_entry(1, 1) == 2 && correction_entry(1, 2) == 0
            && correction_entry(1, 3) == 0,
        correction_entry(2, 0) == 0 && correction_entry(2, 1) == 0 && correction_entry(2, 2) == 1
            && correction_entry(2, 3) == 0,
        correction_entry(3, 0) == 0 && correction_entry(3, 1) == 0 && correction_entry(3, 2) == 1
            && correction_entry(3, 3) == 2,
{
}

} // verus!
