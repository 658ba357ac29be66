//! The pixel buffer handed to the image writer, and a fixed test pattern.

use vstd::prelude::*;

verus! {

/// A width-by-height image of 8-bit RGB triples, row-major, rows ordered
/// top to bottom, named for the plain-text PPM form it is written in.
pub struct P3 {
    pub width: usize,
    pub height: usize,
    pub data: Vec<(u8, u8, u8)>,
}

/// The red byte of the test pattern at column `col` of 200: the rounded
/// byte value of the ramp `col / 200`.
pub open spec fn test_red(col: int) -> int {
    (51198 * col + 20000) / 40000
}

/// The green byte of the test pattern at image-plane row `j` of 100
/// (counted from the bottom): the rounded byte value of the ramp
/// `j / 100`.
pub open spec fn test_green(j: int) -> int {
    (51198 * j + 10000) / 20000
}

/// A 200 x 100 test pattern: red ramps left to right, green bottom to
/// top, blue constant at a fifth of full scale.
pub fn test_image() -> (img: P3)
    ensures
        img.width == 200,
        img.height == 100,
        img.data@.len() == 20000,
        forall|k: int|
            0 <= k < 20000 ==> {
                let px = #[trigger] img.data@[k];
                &&& px.0 as int == test_red(k % 200)
                &&& px.1 as int == test_green(99 - k / 200)
                &&& px.2 == 51u8
            },
{
    let nx: usize = 200;
    let ny: usize = 100;
    let mut data: Vec<(u8, u8, u8)> = Vec::new();

    let mut row: usize = 0;
    while row < ny
        invariant
            nx == 200,
            ny == 100,
            row <= 100,
            data@.len() == row * 200,
            forall|k: int|
                0 <= k < data@.len() ==> {
                    let px = #[trigger] data@[k];
                    &&& px.0 as int == test_red(k % 200)
                    &&& px.1 as int == test_green(99 - k / 200)
                    &&& px.2 == 51u8
                },
        decreases ny - row,
    {
        let j: usize = ny - 1 - row;
        let mut i: usize = 0;
        while i < nx
            invariant
                nx == 200,
                ny == 100,
                row < 100,
                i <= 200,
                j == 99 - row,
                data@.len() == row * 200 + i,
                forall|k: int|
                    0 <= k < data@.len() ==> {
                        let px = #[trigger] data@[k];
                        &&& px.0 as int == test_red(k % 200)
                        &&& px.1 as int == test_green(99 - k / 200)
                        &&& px.2 == 51u8
                    },
            decreases nx - i,
        {
            let rv: u64 = (51198 * (i as u64) + 20000) / 40000;
            let gv: u64 = (51198 * (j as u64) + 10000) / 20000;
            proof {
                assert(rv <= 255 && gv <= 255) by (nonlinear_arith)
                    requires
                        rv == (51198 * (i as u64) + 20000) as u64 / 40000,
                        gv == (51198 * (j as u64) + 10000) as u64 / 20000,
                        i < 200,
                        j < 100,
                ;
                assert(row * 200 + i < 20000) by (nonlinear_arith)
                    requires
                        row < 100,
                        i < 200,
                ;
                assert((row * 200 + i) % 200 == i && (row * 200 + i) / 200 == row)
                    by (nonlinear_arith)
                    requires
                        row < 100,
                        i < 200,
                ;
            }
            let ir: u8 = rv as u8;
            let ig: u8 = gv as u8;
            let ib: u8 = 51;
            data.push((ir, ig, ib));
            i = i + 1;
        }
        row = row + 1;
    }

    P3 { width: nx, height: ny, data }
}

} // verus!
