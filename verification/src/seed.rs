//! Lattice seeding: a sparse random pattern generated in one quadrant's
//! patch region and mirrored into the other three quadrants, so that the
//! initial condition has exact four-fold symmetry.

use vstd::prelude::*;

verus! {

/// Relies on rand::random: draws one value of any type whose standard
/// distribution rand implements. Nothing is promised of the result.
pub assume_specification<T>[ rand::random::<T> ]() -> (r: T)
    where
        rand::distributions::Standard: rand::distributions::Distribution<T>,
;

/// Row-major index of cell (x, y) in a lattice `width` cells wide.
pub open spec fn cell_index(x: int, y: int, width: int) -> int {
    y * width + x
}

/// The value of cell (x, y) in a row-major lattice.
pub open spec fn cell(data: Seq<i8>, x: int, y: int, width: int) -> i8 {
    data[cell_index(x, y, width)]
}

/// The image of axis coordinate `a` in the generating quadrant of an axis
/// of extent `d`: coordinates in the far half reflect to `d - 1 - a`.
pub open spec fn to_quadrant(a: int, d: int) -> int {
    if 2 * a < d {
        a
    } else {
        d - 1 - a
    }
}

/// Whether generating-quadrant cell (x, y) is seeded: inside the quadrant
/// with a border margin of a quarter extent on each axis, and outside a
/// central margin of an eighth extent around the lattice center.
pub open spec fn in_patch(x: int, y: int, width: int, height: int) -> bool {
    &&& width / 4 <= x < width / 2
    &&& height / 4 <= y < height / 2
    &&& !(width / 2 - x < width / 8 && height / 2 - y < height / 8)
}

/// Whether lattice cell (x, y) is seeded: its quadrant image is in the
/// patch region.
pub open spec fn seeded(x: int, y: int, width: int, height: int) -> bool {
    in_patch(to_quadrant(x, width), to_quadrant(y, height), width, height)
}

/// Four-fold symmetry: every cell equals its horizontal mirror image and
/// its vertical mirror image (hence also its diagonal mirror image).
pub open spec fn four_fold_symmetric(data: Seq<i8>, width: int, height: int) -> bool {
    forall|x: int, y: int|
        0 <= x < width && 0 <= y < height ==> {
            &&& #[trigger] cell(data, x, y, width) == cell(data, width - 1 - x, y, width)
            &&& cell(data, x, y, width) == cell(data, x, height - 1 - y, width)
        }
}

/// Every seeded cell holds one of the two seed values; every other cell
/// holds the neutral value 0.
pub open spec fn seed_values_ok(data: Seq<i8>, width: int, height: int) -> bool {
    forall|x: int, y: int|
        0 <= x < width && 0 <= y < height ==> {
            if seeded(x, y, width, height) {
                #[trigger] cell(data, x, y, width) == 1 || cell(data, x, y, width) == -1
            } else {
                cell(data, x, y, width) == 0
            }
        }
}

/// Whether generating-quadrant cell (qx, qy) has already been visited when
/// the generator stands at row `row`, column `col`.
pub open spec fn quadrant_done(qx: int, qy: int, row: int, col: int) -> bool {
    qy < row || (qy == row && qx < col)
}

/// Mid-generation shape of the lattice: cells whose quadrant image has
/// been visited hold a seed value if seeded; all other cells still hold
/// the neutral value 0.
pub open spec fn seed_progress(data: Seq<i8>, width: int, height: int, row: int, col: int) -> bool {
    forall|x: int, y: int|
        0 <= x < width && 0 <= y < height ==> {
            if quadrant_done(to_quadrant(x, width), to_quadrant(y, height), row, col)
                && seeded(x, y, width, height) {
                #[trigger] cell(data, x, y, width) == 1 || cell(data, x, y, width) == -1
            } else {
                cell(data, x, y, width) == 0
            }
        }
}

proof fn lemma_cell_index_bounds(x: int, y: int, width: int, height: int)
    by (nonlinear_arith)
    requires
        0 <= x < width,
        0 <= y < height,
    ensures
        0 <= y * width + x < width * height,
{
}

proof fn lemma_cell_index_injective(x1: int, y1: int, x2: int, y2: int, width: int, height: int)
    by (nonlinear_arith)
    requires
        0 <= x1 < width,
        0 <= y1 < height,
        0 <= x2 < width,
        0 <= y2 < height,
        y1 * width + x1 == y2 * width + x2,
    ensures
        x1 == x2,
        y1 == y2,
{
}

/// Builds the full-random seed for a `width` x `height` lattice: every
/// cell independently holds one of the two seed values, uncorrelated.
pub fn generate_random_fill(width: u32, height: u32) -> (data: Vec<i8>)
    requires
        width as int * height as int <= usize::MAX as int,
    ensures
        data@.len() == width as int * height as int,
        forall|i: int| 0 <= i < data@.len() ==> data@[i] == 1 || data@[i] == -1,
{
    let capacity = (width as usize) * (height as usize);
    let mut data: Vec<i8> = Vec::new();
    while data.len() < capacity
        invariant
            data@.len() <= capacity,
            forall|i: int| 0 <= i < data@.len() ==> data@[i] == 1 || data@[i] == -1,
        decreases capacity - data@.len(),
    {
        let value: i8 = if rand::random::<bool>() {
            1
        } else {
            -1
        };
        data.push(value);
    }
    data
}

/// Builds the symmetric-patch seed for a `width` x `height` lattice:
/// one signed value per cell in row-major order, 1 or -1 where seeded,
/// 0 everywhere else, with exact four-fold symmetry.
pub fn generate_symmetric_seed(width: u32, height: u32) -> (data: Vec<i8>)
    requires
        width as int * height as int <= usize::MAX as int,
    ensures
        data@.len() == width as int * height as int,
        four_fold_symmetric(data@, width as int, height as int),
        seed_values_ok(data@, width as int, height as int),
{
    let w = width as usize;
    let h = height as usize;
    let ghost wi = width as int;
    let ghost hi = height as int;
    let capacity = w * h;

    let mut data: Vec<i8> = Vec::new();
    while data.len() < capacity
        invariant
            capacity == wi * hi,
            data@.len() <= capacity,
            forall|i: int| 0 <= i < data@.len() ==> data@[i] == 0,
        decreases capacity - data@.len(),
    {
        data.push(0);
    }

    proof {
        assert forall|x: int, y: int| 0 <= x < wi && 0 <= y < hi implies {
            &&& #[trigger] cell(data@, x, y, wi) == 0
            &&& cell(data@, wi - 1 - x, y, wi) == 0
            &&& cell(data@, x, hi - 1 - y, wi) == 0
        } by {
            lemma_cell_index_bounds(x, y, wi, hi);
            lemma_cell_index_bounds(wi - 1 - x, y, wi, hi);
            lemma_cell_index_bounds(x, hi - 1 - y, wi, hi);
        }
    }

    let mut y: usize = 0;
    while y < h / 2
        invariant
            w == wi,
            h == hi,
            wi * hi <= usize::MAX as int,
            y <= h / 2,
            data@.len() == wi * hi,
            four_fold_symmetric(data@, wi, hi),
            seed_progress(data@, wi, hi, y as int, 0),
        decreases h / 2 - y,
    {
        let mut x: usize = 0;
        while x < w / 2
            invariant
                w == wi,
                h == hi,
                wi * hi <= usize::MAX as int,
                y < h / 2,
                x <= w / 2,
                data@.len() == wi * hi,
                four_fold_symmetric(data@, wi, hi),
                seed_progress(data@, wi, hi, y as int, x as int),
            decreases w / 2 - x,
        {
            let random_value: i8 = if rand::random::<bool>() {
                1
            } else {
                -1
            };

            let is_seeded_here = x >= w / 4 && y >= h / 4 && !(w / 2 - x < w / 8 && h / 2 - y
                < h / 8);

            if is_seeded_here {
                let xm = w - 1 - x;
                let ym = h - 1 - y;
                let ghost prev = data@;
                let ghost xi = x as int;
                let ghost yi = y as int;
                let ghost xmi = xm as int;
                let ghost ymi = ym as int;
                let ghost v = random_value;

                proof {
                    lemma_cell_index_bounds(xi, yi, wi, hi);
                    lemma_cell_index_bounds(xmi, yi, wi, hi);
                    lemma_cell_index_bounds(xi, ymi, wi, hi);
                    lemma_cell_index_bounds(xmi, ymi, wi, hi);
                }

                data[y * w + x] = random_value;
                data[y * w + xm] = random_value;
                data[ym * w + x] = random_value;
                data[ym * w + xm] = random_value;

                proof {
                    assert forall|a: int, b: int| 0 <= a < wi && 0 <= b < hi implies #[trigger] cell(
                        data@,
                        a,
                        b,
                        wi,
                    ) == (if (a == xi || a == xmi) && (b == yi || b == ymi) {
                        v
                    } else {
                        cell(prev, a, b, wi)
                    }) by {
                        lemma_cell_index_bounds(a, b, wi, hi);
                        if cell_index(a, b, wi) == cell_index(xi, yi, wi) {
                            lemma_cell_index_injective(a, b, xi, yi, wi, hi);
                        }
                        if cell_index(a, b, wi) == cell_index(xmi, yi, wi) {
                            lemma_cell_index_injective(a, b, xmi, yi, wi, hi);
                        }
                        if cell_index(a, b, wi) == cell_index(xi, ymi, wi) {
                            lemma_cell_index_injective(a, b, xi, ymi, wi, hi);
                        }
                        if cell_index(a, b, wi) == cell_index(xmi, ymi, wi) {
                            lemma_cell_index_injective(a, b, xmi, ymi, wi, hi);
                        }
                    }

                    assert forall|a: int, b: int| 0 <= a < wi && 0 <= b < hi implies {
                        &&& #[trigger] cell(data@, a, b, wi) == cell(data@, wi - 1 - a, b, wi)
                        &&& cell(data@, a, b, wi) == cell(data@, a, hi - 1 - b, wi)
                    } by {
                        assert(cell(prev, a, b, wi) == cell(prev, wi - 1 - a, b, wi));
                        assert(cell(prev, a, b, wi) == cell(prev, a, hi - 1 - b, wi));
                        assert(cell(data@, wi - 1 - a, b, wi) == (if ((wi - 1 - a) == xi || (wi - 1
                            - a) == xmi) && (b == yi || b == ymi) {
                            v
                        } else {
                            cell(prev, wi - 1 - a, b, wi)
                        }));
                        assert(cell(data@, a, hi - 1 - b, wi) == (if (a == xi || a == xmi) && ((hi
                            - 1 - b) == yi || (hi - 1 - b) == ymi) {
                            v
                        } else {
                            cell(prev, a, hi - 1 - b, wi)
                        }));
                    }

                    assert forall|a: int, b: int| 0 <= a < wi && 0 <= b < hi implies {
                        if quadrant_done(to_quadrant(a, wi), to_quadrant(b, hi), yi, xi + 1)
                            && seeded(a, b, wi, hi) {
                            #[trigger] cell(data@, a, b, wi) == 1 || cell(data@, a, b, wi) == -1
                        } else {
                            cell(data@, a, b, wi) == 0
                        }
                    } by {
                        assert(cell(data@, a, b, wi) == (if (a == xi || a == xmi) && (b == yi || b
                            == ymi) {
                            v
                        } else {
                            cell(prev, a, b, wi)
                        }));
                        if quadrant_done(to_quadrant(a, wi), to_quadrant(b, hi), yi, xi)
                            && seeded(a, b, wi, hi) {
                            assert(cell(prev, a, b, wi) == 1 || cell(prev, a, b, wi) == -1);
                        } else {
                            assert(cell(prev, a, b, wi) == 0);
                        }
                    }
                }
            } else {
                proof {
                    let ghost xi = x as int;
                    let ghost yi = y as int;
                    assert forall|a: int, b: int| 0 <= a < wi && 0 <= b < hi implies {
                        if quadrant_done(to_quadrant(a, wi), to_quadrant(b, hi), yi, xi + 1)
                            && seeded(a, b, wi, hi) {
                            #[trigger] cell(data@, a, b, wi) == 1 || cell(data@, a, b, wi) == -1
                        } else {
                            cell(data@, a, b, wi) == 0
                        }
                    } by {
                        if quadrant_done(to_quadrant(a, wi), to_quadrant(b, hi), yi, xi)
                            && seeded(a, b, wi, hi) {
                            assert(cell(data@, a, b, wi) == 1 || cell(data@, a, b, wi) == -1);
                        } else {
                            assert(cell(data@, a, b, wi) == 0);
                        }
                    }
                }
            }

            x = x + 1;
        }

        proof {
            let ghost yi = y as int;
            assert forall|a: int, b: int| 0 <= a < wi && 0 <= b < hi implies {
                if quadrant_done(to_quadrant(a, wi), to_quadrant(b, hi), yi + 1, 0)
                    && seeded(a, b, wi, hi) {
                    #[trigger] cell(data@, a, b, wi) == 1 || cell(data@, a, b, wi) == -1
                } else {
                    cell(data@, a, b, wi) == 0
                }
            } by {
                if quadrant_done(to_quadrant(a, wi), to_quadrant(b, hi), yi, (w / 2) as int)
                    && seeded(a, b, wi, hi) {
                    assert(cell(data@, a, b, wi) == 1 || cell(data@, a, b, wi) == -1);
                } else {
                    assert(cell(data@, a, b, wi) == 0);
                }
            }
        }

        y = y + 1;
    }

    proof {
        assert forall|a: int, b: int| 0 <= a < wi && 0 <= b < hi implies {
            if seeded(a, b, wi, hi) {
                #[trigger] cell(data@, a, b, wi) == 1 || cell(data@, a, b, wi) == -1
            } else {
                cell(data@, a, b, wi) == 0
            }
        } by {
            if quadrant_done(to_quadrant(a, wi), to_quadrant(b, hi), (h / 2) as int, 0)
                && seeded(a, b, wi, hi) {
                assert(cell(data@, a, b, wi) == 1 || cell(data@, a, b, wi) == -1);
            } else {
                assert(cell(data@, a, b, wi) == 0);
            }
        }
    }

    data
}

} // verus!
