//! Dispatch geometry for the transition kernel: how many workgroups are
//! needed along each axis so that every lattice cell is covered.

use vstd::prelude::*;

verus! {

/// Workgroups needed to cover `extent` cells when each workgroup covers
/// `group` cells along the axis: the ceiling of `extent / group`.
pub open spec fn div_ceil(extent: int, group: int) -> int {
    (extent + group - 1) / group
}

/// The dispatch-count formula computes an exact ceiling: the dispatched
/// workgroups cover every cell, the grid has no entirely idle trailing
/// workgroup, and the count exceeds `extent / group` exactly when the
/// division leaves a remainder.
pub proof fn lemma_div_ceil_is_ceiling(extent: int, group: int)
    requires
        0 <= extent,
        0 < group,
    ensures
        div_ceil(extent, group) * group >= extent,
        extent > 0 ==> (div_ceil(extent, group) - 1) * group < extent,
        extent == 0 ==> div_ceil(extent, group) == 0,
        extent % group == 0 ==> div_ceil(extent, group) == extent / group,
        extent % group != 0 ==> div_ceil(extent, group) == extent / group + 1,
{
    let q = extent / group;
    let r = extent % group;
    vstd::arithmetic::div_mod::lemma_fundamental_div_mod(extent, group);
    vstd::arithmetic::div_mod::lemma_mod_bound(extent, group);
    if r == 0 {
        assert(extent + group - 1 == q * group + (group - 1)) by (nonlinear_arith)
            requires
                extent == group * q + r,
                r == 0,
        ;
        vstd::arithmetic::div_mod::lemma_fundamental_div_mod_converse(
            extent + group - 1, group, q, group - 1);
        assert(q * group >= extent
            && (extent > 0 ==> (q - 1) * group < extent)
            && (extent == 0 ==> q == 0)) by (nonlinear_arith)
            requires
                extent == group * q + r,
                r == 0,
                0 < group,
                0 <= extent,
        ;
    } else {
        assert(extent + group - 1 == (q + 1) * group + (r - 1)) by (nonlinear_arith)
            requires
                extent == group * q + r,
        ;
        vstd::arithmetic::div_mod::lemma_fundamental_div_mod_converse(
            extent + group - 1, group, q + 1, r - 1);
        assert((q + 1) * group >= extent && q * group < extent) by (nonlinear_arith)
            requires
                extent == group * q + r,
                0 < r < group,
                0 < group,
        ;
    }
}

/// Workgroup count along one axis, computed without risk of overflow:
/// for a non-empty extent this is `(extent - 1) / group + 1`, which equals
/// the ceiling `(extent + group - 1) / group`.
pub fn work_groups_for(extent: u32, group: u32) -> (count: u32)
    requires
        group > 0,
    ensures
        count == div_ceil(extent as int, group as int),
{
    if extent == 0 {
        proof {
            vstd::arithmetic::div_mod::lemma_fundamental_div_mod_converse(
                group as int - 1, group as int, 0, group as int - 1);
        }
        0
    } else {
        let count = (extent - 1) / group + 1;
        proof {
            let w = extent as int;
            let g = group as int;
            vstd::arithmetic::div_mod::lemma_fundamental_div_mod(w - 1, g);
            vstd::arithmetic::div_mod::lemma_mod_bound(w - 1, g);
            assert(w + g - 1 == ((w - 1) / g + 1) * g + (w - 1) % g
                && (w - 1) / g < w) by (nonlinear_arith)
                requires
                    w - 1 == g * ((w - 1) / g) + (w - 1) % g,
                    0 <= (w - 1) % g < g,
                    0 < g,
                    0 < w,
            ;
            vstd::arithmetic::div_mod::lemma_fundamental_div_mod_converse(
                w + g - 1, g, (w - 1) / g + 1, (w - 1) % g);
        }
        count
    }
}

/// The number of workgroups to dispatch for a lattice of `size` cells with
/// a per-workgroup extent of `workgroup_size` cells, per axis.
pub fn compute_work_group_count(size: (u32, u32), workgroup_size: (u32, u32)) -> (count: (u32, u32))
    requires
        workgroup_size.0 > 0,
        workgroup_size.1 > 0,
    ensures
        count.0 == div_ceil(size.0 as int, workgroup_size.0 as int),
        count.1 == div_ceil(size.1 as int, workgroup_size.1 as int),
{
    let x = work_groups_for(size.0, workgroup_size.0);
    let y = work_groups_for(size.1, workgroup_size.1);

    (x, y)
}

} // verus!
