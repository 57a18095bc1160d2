//! Circular brush kernel for hydraulic erosion.
//!
//! For a radius `r` the kernel is every integer offset `(dx, dy)` with
//! `dx, dy` in `[-r, r]` and `dx*dx + dy*dy < r*r` (strictly inside the disc,
//! excluding the ring at exactly `r`), enumerated row by row from `-r` to `r`
//! and left to right within a row. The floating-point weighting
//! (`1 - sqrt(dx*dx + dy*dy) / r`, normalized to sum to one) is derived from
//! these offsets outside the verified core.

use vstd::prelude::*;

use crate::settings::SettingsError;

verus! {

/// The largest radius the kernel accepts: keeps every squared distance, and
/// every flattened index over a grid row, within a 32-bit signed word.
pub const MAX_BRUSH_RADIUS: i32 = 0x7fff;

/// The offset lies strictly inside the disc of the given radius.
pub open spec fn offset_in_disc(dx: int, dy: int, radius: int) -> bool {
    dx * dx + dy * dy < radius * radius
}

/// The kernel offsets of row `y` whose first coordinate is below `xend`, in
/// left-to-right order.
pub open spec fn row_offsets(radius: int, y: int, xend: int) -> Seq<(i32, i32)>
    decreases xend + radius,
{
    if xend <= -radius {
        Seq::empty()
    } else {
        row_offsets(radius, y, xend - 1) + if offset_in_disc(xend - 1, y, radius) {
            seq![((xend - 1) as i32, y as i32)]
        } else {
            Seq::empty()
        }
    }
}

/// The kernel offsets of all rows whose second coordinate is below `yend`,
/// row by row.
pub open spec fn rows_offsets(radius: int, yend: int) -> Seq<(i32, i32)>
    decreases yend + radius,
{
    if yend <= -radius {
        Seq::empty()
    } else {
        rows_offsets(radius, yend - 1) + row_offsets(radius, yend - 1, radius + 1)
    }
}

/// All offsets of the kernel for a radius, in enumeration order.
pub open spec fn kernel_offsets(radius: int) -> Seq<(i32, i32)> {
    rows_offsets(radius, radius + 1)
}

/// Precomputed circular offset table used by erosion, built once per radius.
#[derive(Debug)]
pub struct BrushKernel {
    pub radius: i32,
    pub offsets: Vec<(i32, i32)>,
}

impl BrushKernel {
    /// The kernel is exactly the enumeration its radius defines.
    pub open spec fn wf(self) -> bool {
        &&& 1 <= self.radius <= MAX_BRUSH_RADIUS
        &&& self.offsets@ == kernel_offsets(self.radius as int)
    }

    /// Builds the kernel for a radius; a radius below one is rejected, as
    /// configuration validation demands.
    pub fn new(radius: i32) -> (r: Result<BrushKernel, SettingsError>)
        requires
            radius <= MAX_BRUSH_RADIUS,
        ensures
            radius >= 1 <==> r is Ok,
            radius < 1 ==> r == Result::<BrushKernel, SettingsError>::Err(
                SettingsError::InvalidRadius,
            ),
            r matches Ok(k) ==> k.wf() && k.radius == radius,
    {
        if radius < 1 {
            return Err(SettingsError::InvalidRadius);
        }
        let mut offsets: Vec<(i32, i32)> = Vec::new();
        let mut brush_y: i32 = -radius;
        proof {
            assert(rows_offsets(radius as int, -radius as int) =~= Seq::<(i32, i32)>::empty());
        }
        while brush_y <= radius
            invariant
                1 <= radius <= MAX_BRUSH_RADIUS,
                -radius <= brush_y <= radius + 1,
                offsets@ == rows_offsets(radius as int, brush_y as int),
            decreases radius + 1 - brush_y,
        {
            let mut brush_x: i32 = -radius;
            proof {
                assert(row_offsets(radius as int, brush_y as int, -radius as int) =~= Seq::<
                    (i32, i32),
                >::empty());
            }
            while brush_x <= radius
                invariant
                    1 <= radius <= MAX_BRUSH_RADIUS,
                    -radius <= brush_y <= radius,
                    -radius <= brush_x <= radius + 1,
                    offsets@ == rows_offsets(radius as int, brush_y as int) + row_offsets(
                        radius as int,
                        brush_y as int,
                        brush_x as int,
                    ),
                decreases radius + 1 - brush_x,
            {
                proof {
                    assert(brush_x * brush_x <= MAX_BRUSH_RADIUS * MAX_BRUSH_RADIUS
                        && brush_x * brush_x >= 0) by (nonlinear_arith)
                        requires
                            -MAX_BRUSH_RADIUS <= brush_x <= MAX_BRUSH_RADIUS,
                    ;
                    assert(brush_y * brush_y <= MAX_BRUSH_RADIUS * MAX_BRUSH_RADIUS
                        && brush_y * brush_y >= 0) by (nonlinear_arith)
                        requires
                            -MAX_BRUSH_RADIUS <= brush_y <= MAX_BRUSH_RADIUS,
                    ;
                    assert(radius * radius <= MAX_BRUSH_RADIUS * MAX_BRUSH_RADIUS && radius
                        * radius >= 0) by (nonlinear_arith)
                        requires
                            1 <= radius <= MAX_BRUSH_RADIUS,
                    ;
                }
                let sqr_dst = brush_x * brush_x + brush_y * brush_y;
                if sqr_dst < radius * radius {
                    offsets.push((brush_x, brush_y));
                }
                proof {
                    assert(offsets@ =~= rows_offsets(radius as int, brush_y as int) + row_offsets(
                        radius as int,
                        brush_y as int,
                        brush_x as int + 1,
                    ));
                }
                brush_x = brush_x + 1;
            }
            brush_y = brush_y + 1;
        }
        Ok(BrushKernel { radius, offsets })
    }

    /// The offsets flattened onto a row-major grid of the given width:
    /// `dy * width + dx` for each offset, in enumeration order.
    pub fn flattened_indices(&self, width: u32) -> (r: Vec<i32>)
        requires
            self.wf(),
            width <= 0xffff,
        ensures
            r@.len() == self.offsets@.len(),
            forall|i: int|
                0 <= i < r@.len() ==> r@[i] == self.offsets@[i].1 * width + self.offsets@[i].0,
    {
        proof {
            lemma_kernel_offsets_in_disc(self.radius as int);
        }
        let mut r: Vec<i32> = Vec::new();
        let mut i: usize = 0;
        while i < self.offsets.len()
            invariant
                self.wf(),
                width <= 0xffff,
                i <= self.offsets@.len(),
                r@.len() == i,
                forall|j: int|
                    0 <= j < i ==> r@[j] == self.offsets@[j].1 * width + self.offsets@[j].0,
                forall|j: int|
                    0 <= j < self.offsets@.len() ==> {
                        &&& -MAX_BRUSH_RADIUS < (#[trigger] self.offsets@[j]).0 < MAX_BRUSH_RADIUS
                        &&& -MAX_BRUSH_RADIUS < self.offsets@[j].1 < MAX_BRUSH_RADIUS
                    },
            decreases self.offsets@.len() - i,
        {
            let (dx, dy) = self.offsets[i];
            proof {
                assert(dy * width <= MAX_BRUSH_RADIUS * 0xffff && dy * width >= -(MAX_BRUSH_RADIUS
                    * 0xffff)) by (nonlinear_arith)
                    requires
                        -MAX_BRUSH_RADIUS <= dy <= MAX_BRUSH_RADIUS,
                        0 <= width <= 0xffff,
                ;
            }
            r.push(dy * (width as i32) + dx);
            i = i + 1;
        }
        r
    }
}

/// Every offset of a row enumeration lies strictly inside the disc, and both
/// coordinates lie strictly between `-radius` and `radius`.
proof fn lemma_row_offsets_in_disc(radius: int, y: int, xend: int)
    requires
        1 <= radius <= MAX_BRUSH_RADIUS,
        -radius <= y <= radius,
        xend <= radius + 1,
    ensures
        forall|i: int|
            0 <= i < row_offsets(radius, y, xend).len() ==> {
                &&& offset_in_disc(
                    (#[trigger] row_offsets(radius, y, xend)[i]).0 as int,
                    row_offsets(radius, y, xend)[i].1 as int,
                    radius,
                )
                &&& -radius < row_offsets(radius, y, xend)[i].0 < radius
                &&& -radius < row_offsets(radius, y, xend)[i].1 < radius
                &&& row_offsets(radius, y, xend)[i].1 == y
            },
    decreases xend + radius,
{
    if xend > -radius {
        lemma_row_offsets_in_disc(radius, y, xend - 1);
        let prefix = row_offsets(radius, y, xend - 1);
        let whole = row_offsets(radius, y, xend);
        if offset_in_disc(xend - 1, y, radius) {
            assert((xend - 1) * (xend - 1) >= 0) by (nonlinear_arith);
            assert(y * y >= 0) by (nonlinear_arith);
            assert((xend - 1) * (xend - 1) < radius * radius);
            assert(-radius < xend - 1 < radius) by (nonlinear_arith)
                requires
                    (xend - 1) * (xend - 1) < radius * radius,
                    radius >= 1,
            ;
            assert(-radius < y < radius) by (nonlinear_arith)
                requires
                    y * y < radius * radius,
                    radius >= 1,
            ;
            assert(whole[whole.len() - 1] == (((xend - 1) as i32), (y as i32)));
        }
        assert forall|i: int| 0 <= i < whole.len() implies {
            &&& offset_in_disc((#[trigger] whole[i]).0 as int, whole[i].1 as int, radius)
            &&& -radius < whole[i].0 < radius
            &&& -radius < whole[i].1 < radius
            &&& whole[i].1 == y
        } by {
            if i < prefix.len() {
                assert(whole[i] == prefix[i]);
            }
        }
    }
}

/// Every offset of a whole-kernel enumeration lies strictly inside the disc.
proof fn lemma_rows_offsets_in_disc(radius: int, yend: int)
    requires
        1 <= radius <= MAX_BRUSH_RADIUS,
        yend <= radius + 1,
    ensures
        forall|i: int|
            0 <= i < rows_offsets(radius, yend).len() ==> {
                &&& offset_in_disc(
                    (#[trigger] rows_offsets(radius, yend)[i]).0 as int,
                    rows_offsets(radius, yend)[i].1 as int,
                    radius,
                )
                &&& -radius < rows_offsets(radius, yend)[i].0 < radius
                &&& -radius < rows_offsets(radius, yend)[i].1 < radius
            },
    decreases yend + radius,
{
    if yend > -radius {
        lemma_rows_offsets_in_disc(radius, yend - 1);
        lemma_row_offsets_in_disc(radius, yend - 1, radius + 1);
        let prefix = rows_offsets(radius, yend - 1);
        let row = row_offsets(radius, yend - 1, radius + 1);
        let whole = rows_offsets(radius, yend);
        assert forall|i: int| 0 <= i < whole.len() implies {
            &&& offset_in_disc((#[trigger] whole[i]).0 as int, whole[i].1 as int, radius)
            &&& -radius < whole[i].0 < radius
            &&& -radius < whole[i].1 < radius
        } by {
            if i < prefix.len() {
                assert(whole[i] == prefix[i]);
            } else {
                assert(whole[i] == row[i - prefix.len()]);
            }
        }
    }
}

/// Every offset the kernel holds satisfies `dx*dx + dy*dy < radius*radius`,
/// and both coordinates lie strictly between `-radius` and `radius`.
pub proof fn lemma_kernel_offsets_in_disc(radius: int)
    requires
        1 <= radius <= MAX_BRUSH_RADIUS,
    ensures
        forall|i: int|
            0 <= i < kernel_offsets(radius).len() ==> {
                &&& offset_in_disc(
                    (#[trigger] kernel_offsets(radius)[i]).0 as int,
                    kernel_offsets(radius)[i].1 as int,
                    radius,
                )
                &&& -radius < kernel_offsets(radius)[i].0 < radius
                &&& -radius < kernel_offsets(radius)[i].1 < radius
            },
{
    lemma_rows_offsets_in_disc(radius, radius + 1);
}

} // verus!
