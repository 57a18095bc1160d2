//! Integer plumbing of the droplet erosion pass.
//!
//! The droplet physics itself — bilinear height sampling, the inertia and
//! capacity formulas, the erode and deposit amounts — is floating-point
//! arithmetic and lives outside the verified core. What is verified here is
//! the discrete skeleton those formulas hang on: where a flat seed index
//! lands on the grid, which four cells a deposit reaches (bounds-checked,
//! never wrapping), and which of the two mutation modes a step takes.
//! Droplets are strictly sequential: two droplets' brush writes may overlap,
//! and each must see the previous one's effect, so no part of this is meant
//! to run concurrently.

use vstd::prelude::*;

verus! {

/// The cell a flat seed index lands on: column `index % width`, row
/// `index / width` — the inverse of row-major flattening.
pub fn droplet_seed_cell(index: usize, width: usize) -> (r: (usize, usize))
    requires
        width >= 1,
    ensures
        r.0 == index % width,
        r.1 == index / width,
        r.0 < width,
        r.1 * width + r.0 == index,
{
    proof {
        assert((index / width) * width + index % width == index) by (nonlinear_arith)
            requires
                width >= 1,
        ;
    }
    (index % width, index / width)
}

/// The four bounds-checked deposit targets around a droplet's cell: the cell
/// itself and its right, lower and lower-right neighbors, each admitted only
/// while it is still inside the grid. Nothing wraps: a missing neighbor is
/// simply absent.
pub struct BilinearTargets {
    pub nw: usize,
    pub ne: Option<usize>,
    pub sw: Option<usize>,
    pub se: Option<usize>,
}

/// The deposit targets of the cell at flat index `droplet_idx` on a grid of
/// the given width and size.
pub fn bilinear_targets(droplet_idx: usize, width: usize, size: usize) -> (r: BilinearTargets)
    requires
        droplet_idx < size,
        size + width + 1 <= usize::MAX,
    ensures
        r.nw == droplet_idx,
        r.ne == if droplet_idx + 1 < size {
            Some((droplet_idx + 1) as usize)
        } else {
            None::<usize>
        },
        r.sw == if droplet_idx + width < size {
            Some((droplet_idx + width) as usize)
        } else {
            None::<usize>
        },
        r.se == if droplet_idx + width + 1 < size {
            Some((droplet_idx + width + 1) as usize)
        } else {
            None::<usize>
        },
{
    BilinearTargets {
        nw: droplet_idx,
        ne: if droplet_idx + 1 < size {
            Some(droplet_idx + 1)
        } else {
            None
        },
        sw: if droplet_idx + width < size {
            Some(droplet_idx + width)
        } else {
            None
        },
        se: if droplet_idx + width + 1 < size {
            Some(droplet_idx + width + 1)
        } else {
            None
        },
    }
}

/// What one droplet step does to the grid.
#[derive(Clone, Copy, Debug, PartialEq, Eq, Structural)]
pub enum DropletAction {
    /// Drop carried sediment onto the four cells around the old position.
    Deposit,
    /// Remove material across the brush kernel centered on the old cell.
    Erode,
}

/// A step deposits exactly when the droplet carries more sediment than its
/// capacity or has moved uphill; otherwise it erodes.
pub fn select_droplet_action(sediment_exceeds_capacity: bool, moved_uphill: bool) -> (r:
    DropletAction)
    ensures
        r is Deposit <==> sediment_exceeds_capacity || moved_uphill,
{
    if sediment_exceeds_capacity || moved_uphill {
        DropletAction::Deposit
    } else {
        DropletAction::Erode
    }
}

} // verus!
