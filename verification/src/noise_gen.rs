//! The lattice behind the smooth noise of the synthesiser.
//!
//! Smooth noise is read off a grid of cells whose corners each carry one of
//! twelve gradients. Which gradient a corner carries is fixed by a table of
//! 256 bytes that is derived from a 16-bit seed, so that one seed always
//! gives the same noise.

use vstd::prelude::*;

verus! {

/// Number of cells after which the lattice repeats in each direction.
pub const PERIOD: usize = 256;

/// Number of gradients.
pub const GRADIENT_COUNT: u8 = 12;

/// The table of the seed zero: a fixed permutation of the bytes.
pub const PERMUTATION: [u8; 256] = [
    151, 160, 137, 91, 90, 15, 131, 13, 201, 95, 96, 53, 194, 233, 7, 225,
    140, 36, 103, 30, 69, 142, 8, 99, 37, 240, 21, 10, 23, 190, 6, 148,
    247, 120, 234, 75, 0, 26, 197, 62, 94, 252, 219, 203, 117, 35, 11, 32,
    57, 177, 33, 88, 237, 149, 56, 87, 174, 20, 125, 136, 171, 168, 68, 175,
    74, 165, 71, 134, 139, 48, 27, 166, 77, 146, 158, 231, 83, 111, 229, 122,
    60, 211, 133, 230, 220, 105, 92, 41, 55, 46, 245, 40, 244, 102, 143, 54,
    65, 25, 63, 161, 1, 216, 80, 73, 209, 76, 132, 187, 208, 89, 18, 169,
    200, 196, 135, 130, 116, 188, 159, 86, 164, 100, 109, 198, 173, 186, 3, 64,
    52, 217, 226, 250, 124, 123, 5, 202, 38, 147, 118, 126, 255, 82, 85, 212,
    207, 206, 59, 227, 47, 16, 58, 17, 182, 189, 28, 42, 223, 183, 170, 213,
    119, 248, 152, 2, 44, 154, 163, 70, 221, 153, 101, 155, 167, 43, 172, 9,
    129, 22, 39, 253, 19, 98, 108, 110, 79, 113, 224, 232, 178, 185, 112, 104,
    218, 246, 97, 228, 251, 34, 242, 193, 238, 210, 144, 12, 191, 179, 162, 241,
    81, 51, 145, 235, 249, 14, 239, 107, 49, 192, 214, 31, 181, 199, 106, 157,
    184, 84, 204, 176, 115, 121, 50, 45, 127, 4, 150, 254, 138, 236, 205, 93,
    222, 114, 67, 29, 24, 72, 243, 141, 128, 195, 78, 66, 215, 61, 156, 180,
];

/// The byte of `seed` that is mixed into entry `i` of the table: the low byte
/// at odd entries and the high byte at even ones. A seed below 256 has no
/// high byte of its own and lends its low byte to both.
pub open spec fn seed_byte(seed: u16, i: int) -> u8 {
    if i % 2 == 1 || seed < 256 {
        (seed % 256) as u8
    } else {
        (seed / 256) as u8
    }
}

/// Entry `i` of the table of `seed`.
pub open spec fn seeded_entry(seed: u16, i: int) -> u8 {
    PERMUTATION[i] ^ seed_byte(seed, i)
}

/// The cell of the repeating lattice in which the coordinate `c` lies.
pub open spec fn cell_of(c: int) -> int {
    c % (PERIOD as int)
}

/// The entry of `table` that the corner `(i, j)` of the lattice is hashed to.
pub open spec fn corner_entry(table: Seq<u8>, i: int, j: int) -> u8 {
    table[cell_of(i + table[cell_of(j)])]
}

/// The lattice of one seed.
pub struct NoiseLattice {
    perm: Vec<u8>,
}

impl NoiseLattice {
    #[verifier::type_invariant]
    spec fn inv(self) -> bool {
        self.perm.len() == PERIOD
    }

    /// The table that fixes the gradient of every corner.
    pub closed spec fn table(self) -> Seq<u8> {
        self.perm@
    }

    /// The lattice of `seed`.
    pub fn new(seed: u16) -> (r: Self)
        ensures
            r.table().len() == PERIOD,
            forall|i: int| 0 <= i < PERIOD ==> r.table()[i] == seeded_entry(seed, i),
    {
        let low: u8 = (seed % 256) as u8;
        let high: u8 = if seed < 256 {
            low
        } else {
            (seed / 256) as u8
        };
        let mut perm: Vec<u8> = Vec::new();
        let mut i: usize = 0;
        while i < PERIOD
            invariant
                i <= PERIOD,
                perm.len() == i,
                low == seed % 256,
                high == if seed < 256 { seed % 256 } else { seed / 256 },
                forall|k: int| 0 <= k < i ==> perm[k] == seeded_entry(seed, k),
            decreases PERIOD - i,
        {
            let byte = if i % 2 == 1 {
                low
            } else {
                high
            };
            perm.push(PERMUTATION[i] ^ byte);
            i += 1;
        }
        NoiseLattice { perm }
    }

    /// Entry `i` of the table.
    pub fn entry(&self, i: u8) -> (r: u8)
        ensures
            r == self.table()[i as int],
    {
        proof {
            use_type_invariant(self);
        }
        self.perm[i as usize]
    }

    /// The number of the gradient at the corner `(i + di, j + dj)` of the
    /// cell `(i, j)`, where `di` and `dj` are 0 or 1.
    pub fn corner_gradient(&self, i: u8, j: u8, di: bool, dj: bool) -> (g: u8)
        ensures
            g == corner_entry(
                self.table(),
                i + if di { 1int } else { 0int },
                j + if dj { 1int } else { 0int },
            ) % GRADIENT_COUNT,
            g < GRADIENT_COUNT,
    {
        proof {
            use_type_invariant(self);
        }
        let ci: usize = i as usize + if di { 1usize } else { 0usize };
        let cj: usize = j as usize + if dj { 1usize } else { 0usize };
        let inner = self.perm[cj % PERIOD];
        let outer = self.perm[(ci + inner as usize) % PERIOD];
        outer % GRADIENT_COUNT
    }
}

/// The cell of the repeating lattice in which the coordinate `c` lies.
pub fn lattice_cell(c: i64) -> (r: u8)
    ensures
        r == cell_of(c as int),
{
    let m: i64 = c % 256;
    if m < 0 {
        (m + 256) as u8
    } else {
        m as u8
    }
}

/// The twelve gradients: the directions from the centre of a cube to the
/// middles of its edges, seen from above, so that four of them lie along an
/// axis.
pub open spec fn gradients() -> Seq<(i8, i8)> {
    seq![
        (1i8, 1i8),
        (-1i8, 1i8),
        (1i8, -1i8),
        (-1i8, -1i8),
        (1i8, 0i8),
        (-1i8, 0i8),
        (1i8, 0i8),
        (-1i8, 0i8),
        (0i8, 1i8),
        (0i8, -1i8),
        (0i8, 1i8),
        (0i8, -1i8),
    ]
}

/// Gradient number `g`.
pub fn gradient(g: u8) -> (r: (i8, i8))
    requires
        g < GRADIENT_COUNT,
    ensures
        r == gradients()[g as int],
{
    let x: i8 = if g >= 8 {
        0
    } else if g % 2 == 0 {
        1
    } else {
        -1
    };
    let y: i8 = if g >= 4 && g < 8 {
        0
    } else if g < 2 || g == 8 || g == 10 {
        1
    } else {
        -1
    };
    (x, y)
}

} // verus!
