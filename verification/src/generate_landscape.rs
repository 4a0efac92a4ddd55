use vstd::prelude::*;

verus! {

/// Number of entries in the permutation that drives the lattice noise.
pub const PERMUTATION_SIZE: usize = 256;

/// The classic Perlin permutation of 0..256. The noise indexes a table of
/// twice this length whose second half repeats the first, so an index `i`
/// below 512 reads entry `i % 256`.
pub const PERMUTATION: [u8; 256] = [151, 160, 137, 91, 90, 15, 131, 13, 201, 95, 96, 53, 194, 233, 7, 225, 140, 36, 103, 30, 69, 142, 8, 99, 37, 240, 21, 10, 23, 190, 6, 148, 247, 120, 234, 75, 0, 26, 197, 62, 94, 252, 219, 203, 117, 35, 11, 32, 57, 177, 33, 88, 237, 149, 56, 87, 174, 20, 125, 136, 171, 168, 68, 175, 74, 165, 71, 134, 139, 48, 27, 166, 77, 146, 158, 231, 83, 111, 229, 122, 60, 211, 133, 230, 220, 105, 92, 41, 55, 46, 245, 40, 244, 102, 143, 54, 65, 25, 63, 161, 1, 216, 80, 73, 209, 76, 132, 187, 208, 89, 18, 169, 200, 196, 135, 130, 116, 188, 159, 86, 164, 100, 109, 198, 173, 186, 3, 64, 52, 217, 226, 250, 124, 123, 5, 202, 38, 147, 118, 126, 255, 82, 85, 212, 207, 206, 59, 227, 47, 16, 58, 17, 182, 189, 28, 42, 223, 183, 170, 213, 119, 248, 152, 2, 44, 154, 163, 70, 221, 153, 101, 155, 167, 43, 172, 9, 129, 22, 39, 253, 19, 98, 108, 110, 79, 113, 224, 232, 178, 185, 112, 104, 218, 246, 97, 228, 251, 34, 242, 193, 238, 210, 144, 12, 191, 179, 162, 241, 81, 51, 145, 235, 249, 14, 239, 107, 49, 192, 214, 31, 181, 199, 106, 157, 184, 84, 204, 176, 115, 121, 50, 45, 127, 4, 150, 254, 138, 236, 205, 93, 222, 114, 67, 29, 24, 72, 243, 141, 128, 195, 78, 66, 215, 61, 156, 180];

/// The value of the doubled permutation table at `i`.
pub open spec fn perm(i: int) -> int {
    PERMUTATION@[i % 256] as int
}

/// Reads the doubled permutation table.
pub fn permutation_at(i: usize) -> (r: usize)
    requires
        i < 2 * PERMUTATION_SIZE,
    ensures
        r == perm(i as int),
        r < 256,
{
    PERMUTATION[i % PERMUTATION_SIZE] as usize
}

/// The landscape generator. It carries no state: heights are a pure
/// function of the position.
pub struct GenerateLandscape {}

impl GenerateLandscape {
    pub fn new() -> (r: GenerateLandscape)
        ensures
            r == (GenerateLandscape {}),
    {
        GenerateLandscape {}
    }
}

/// The lattice hashes of the four corners of the noise cell whose lower
/// corner is (`x`, `y`), taken modulo 256.
pub open spec fn spec_corner_hashes(x: int, y: int) -> (int, int, int, int) {
    let xi = x % 256;
    let yi = y % 256;
    (
        perm(perm(xi) + yi),
        perm(perm(xi + 1) + yi),
        perm(perm(xi) + yi + 1),
        perm(perm(xi + 1) + yi + 1),
    )
}

/// The hashes of the four corners of a noise cell, in the order
/// (x, y), (x + 1, y), (x, y + 1), (x + 1, y + 1). The cell coordinates are
/// the floors of the sample position, already converted to `usize`.
pub fn corner_hashes(x_cell: usize, y_cell: usize) -> (r: (usize, usize, usize, usize))
    ensures
        (r.0 as int, r.1 as int, r.2 as int, r.3 as int) == spec_corner_hashes(
            x_cell as int,
            y_cell as int,
        ),
        r.0 < 256 && r.1 < 256 && r.2 < 256 && r.3 < 256,
{
    let xi = x_cell & 255;
    let yi = y_cell & 255;
    assert(xi == x_cell % 256) by (bit_vector)
        requires
            xi == x_cell & 255,
    ;
    assert(yi == y_cell % 256) by (bit_vector)
        requires
            yi == y_cell & 255,
    ;
    let px = permutation_at(xi);
    let px1 = permutation_at(xi + 1);
    let g1 = permutation_at(px + yi);
    let g2 = permutation_at(px1 + yi);
    let g3 = permutation_at(px + yi + 1);
    let g4 = permutation_at(px1 + yi + 1);
    (g1, g2, g3, g4)
}

/// The gradient picked by a corner hash: the signs with which the offsets
/// along x and y enter the corner's contribution.
#[derive(PartialEq, Eq, Structural, Clone, Copy, Debug)]
pub enum Gradient {
    /// x + y
    PlusXPlusY,
    /// -x + y
    MinusXPlusY,
    /// x - y
    PlusXMinusY,
    /// -x - y
    MinusXMinusY,
}

pub open spec fn spec_gradient(hash: int) -> Gradient {
    let h = hash % 4;
    if h == 0 {
        Gradient::PlusXPlusY
    } else if h == 1 {
        Gradient::MinusXPlusY
    } else if h == 2 {
        Gradient::PlusXMinusY
    } else {
        Gradient::MinusXMinusY
    }
}

/// The gradient of a corner, chosen by the two low bits of its hash.
pub fn gradient(hash: usize) -> (g: Gradient)
    ensures
        g == spec_gradient(hash as int),
{
    let h = hash & 3;
    assert(h == hash % 4) by (bit_vector)
        requires
            h == hash & 3,
    ;
    if h == 0 {
        Gradient::PlusXPlusY
    } else if h == 1 {
        Gradient::MinusXPlusY
    } else if h == 2 {
        Gradient::PlusXMinusY
    } else {
        Gradient::MinusXMinusY
    }
}

impl Gradient {
    /// The sign (+1 or -1) with which the x offset enters.
    pub fn x_sign(self) -> (s: i8)
        ensures
            s == (if self == Gradient::PlusXPlusY || self == Gradient::PlusXMinusY { 1i8 } else { -1i8 }),
    {
        match self {
            Gradient::PlusXPlusY | Gradient::PlusXMinusY => 1,
            _ => -1,
        }
    }

    /// The sign (+1 or -1) with which the y offset enters.
    pub fn y_sign(self) -> (s: i8)
        ensures
            s == (if self == Gradient::PlusXPlusY || self == Gradient::MinusXPlusY { 1i8 } else { -1i8 }),
    {
        match self {
            Gradient::PlusXPlusY | Gradient::MinusXPlusY => 1,
            _ => -1,
        }
    }
}

} // verus!
